//! Aggregates the distinct package names declared across a set of source
//! files, and picks the shortest as the root package.

use vstd::prelude::*;

use crate::classify::package_name_of;
use crate::classify::spec_has_package_name;
use crate::catalog::JavaSourceDirectoryType;
use crate::query::is_first_child_kind;
use crate::query::is_first_name_child;
use crate::query::node_text;
use crate::responses::GetPackagesResponse;
use crate::responses::PackageResponse;
use crate::responses::SourceFile;
use crate::text::bytes_eq;
use crate::tree::spec_parse_ok;
use crate::tree::spec_parse_tree;
use crate::tree::parse_source;

verus! {

/// `name` is the package name declared by these bytes: the parse is sound
/// and the first name inside the first package clause reads as `name`.
pub open spec fn spec_file_package(content: Seq<u8>, name: Seq<u8>) -> bool {
    &&& spec_parse_ok(content)
    &&& exists|p: int, j: int|
        #![auto]
        is_first_child_kind(spec_parse_tree(content), 0, "package_declaration"@, p)
            && is_first_name_child(spec_parse_tree(content), p, j) && name == node_text(
            spec_parse_tree(content),
            content,
            j,
        )
}

/// Every listed package name is declared by some file.
pub open spec fn spec_packages_sound(files: Seq<SourceFile>, ps: Seq<PackageResponse>) -> bool {
    forall|k: int|
        0 <= k < ps.len() ==> exists|i: int|
            #![auto]
            0 <= i < files.len() && spec_file_package(
                files[i].file_content@,
                (#[trigger] ps[k]).package_name@,
            )
}

/// Every file below `upto` that declares a package finds its name in the
/// list.
pub open spec fn spec_packages_complete(
    files: Seq<SourceFile>,
    upto: int,
    ps: Seq<PackageResponse>,
) -> bool {
    forall|i: int|
        0 <= i < upto && spec_parse_ok((#[trigger] files[i]).file_content@)
            && spec_has_package_name(spec_parse_tree(files[i].file_content@)) ==> exists|k: int|
            0 <= k < ps.len() && spec_file_package(
                files[i].file_content@,
                ps[k].package_name@,
            )
}

/// The package names in `ps` are pairwise distinct.
pub open spec fn spec_distinct_packages(ps: Seq<PackageResponse>) -> bool {
    forall|i: int, j: int|
        0 <= i < j < ps.len() ==> (#[trigger] ps[i].package_name@) != (
        #[trigger] ps[j].package_name@)
}

fn contains_package(ps: &Vec<PackageResponse>, name: &Vec<u8>) -> (r: bool)
    ensures
        r == exists|i: int| 0 <= i < ps@.len() && (#[trigger] ps@[i].package_name@) == name@,
{
    let n = ps.len();
    let mut i: usize = 0;
    while i < n
        invariant
            i <= n,
            n == ps@.len(),
            forall|j: int| 0 <= j < i ==> (#[trigger] ps@[j].package_name@) != name@,
        decreases n - i,
    {
        if bytes_eq(ps[i].package_name.as_slice(), name.as_slice()) {
            return true;
        }
        i = i + 1;
    }
    false
}

/// Collects the distinct package names of the files, in first-seen order:
/// exactly the names some file declares are listed, once each, and the
/// shortest collected name is the root package — it exists exactly when
/// any package was found. The set of names depends on each file's bytes
/// alone, not on how a caller fans the per-file work out; the source-set
/// selector only tells the caller which files to hand in.
pub fn execute(files: &Vec<SourceFile>, source_directory: &JavaSourceDirectoryType) -> (r:
    GetPackagesResponse)
    ensures
        r.packages_count == r.packages@.len(),
        spec_distinct_packages(r.packages@),
        spec_packages_sound(files@, r.packages@),
        spec_packages_complete(files@, files@.len() as int, r.packages@),
        r.root_package_name is Some <==> r.packages@.len() > 0,
        r.root_package_name is Some ==> exists|i: int|
            0 <= i < r.packages@.len() && (#[trigger] r.packages@[i].package_name@)
                == r.root_package_name->0@,
        r.root_package_name is Some ==> forall|i: int|
            0 <= i < r.packages@.len() ==> r.root_package_name->0@.len() <= (
            #[trigger] r.packages@[i].package_name@).len(),
{
    let _ = source_directory;
    let mut packages: Vec<PackageResponse> = Vec::new();
    let n = files.len();
    let mut i: usize = 0;
    while i < n
        invariant
            i <= n,
            n == files@.len(),
            spec_distinct_packages(packages@),
            spec_packages_sound(files@, packages@),
            spec_packages_complete(files@, i as int, packages@),
        decreases n - i,
    {
        let f = &files[i];
        match parse_source(&f.file_content) {
            Ok(t) => {
                match package_name_of(&t, &f.file_content) {
                    Some(nm) => {
                        proof {
                            assert(spec_file_package(files@[i as int].file_content@, nm@));
                        }
                        if !contains_package(&packages, &nm) {
                            let ghost prev = packages@;
                            packages.push(PackageResponse { package_name: nm });
                            proof {
                                assert forall|a: int, b: int|
                                    0 <= a < b < packages@.len() implies (
                                #[trigger] packages@[a].package_name@) != (
                                #[trigger] packages@[b].package_name@) by {
                                    if b < prev.len() {
                                    } else {
                                        assert(packages@[a] == prev[a]);
                                    }
                                }
                                assert(spec_packages_sound(files@, packages@)) by {
                                    assert forall|k: int|
                                        0 <= k < packages@.len() implies exists|ix: int|
                                        #![auto]
                                        0 <= ix < files@.len() && spec_file_package(
                                            files@[ix].file_content@,
                                            (#[trigger] packages@[k]).package_name@,
                                        ) by {
                                        if k < prev.len() {
                                            assert(packages@[k] == prev[k]);
                                            assert(spec_packages_sound(files@, prev));
                                            let ix0 = choose|ix0: int|
                                                #![auto]
                                                0 <= ix0 < files@.len() && spec_file_package(
                                                    files@[ix0].file_content@,
                                                    prev[k].package_name@,
                                                );
                                            assert(spec_file_package(
                                                files@[ix0].file_content@,
                                                packages@[k].package_name@,
                                            ));
                                        } else {
                                            assert(spec_file_package(
                                                files@[i as int].file_content@,
                                                packages@[k].package_name@,
                                            ));
                                        }
                                    }
                                }
                                assert(spec_packages_complete(files@, i + 1, packages@)) by {
                                    assert forall|ix: int|
                                        0 <= ix < i + 1 && spec_parse_ok(
                                            (#[trigger] files@[ix]).file_content@,
                                        ) && spec_has_package_name(
                                            spec_parse_tree(files@[ix].file_content@),
                                        ) implies exists|k: int|
                                        0 <= k < packages@.len() && spec_file_package(
                                            files@[ix].file_content@,
                                            packages@[k].package_name@,
                                        ) by {
                                        if ix < i {
                                            assert(spec_packages_complete(
                                                files@,
                                                i as int,
                                                prev,
                                            ));
                                            let k0 = choose|k0: int|
                                                0 <= k0 < prev.len() && spec_file_package(
                                                    files@[ix].file_content@,
                                                    prev[k0].package_name@,
                                                );
                                            assert(packages@[k0] == prev[k0]);
                                        } else {
                                            assert(packages@[packages@.len() - 1].package_name@
                                                == nm@);
                                        }
                                    }
                                }
                            }
                        } else {
                            proof {
                                let k0 = choose|k0: int|
                                    0 <= k0 < packages@.len() && (
                                    #[trigger] packages@[k0].package_name@) == nm@;
                                assert(spec_file_package(
                                    files@[i as int].file_content@,
                                    packages@[k0].package_name@,
                                ));
                            }
                        }
                    },
                    None => {},
                }
            },
            Err(_) => {},
        }
        i = i + 1;
    }
    let mut root: Option<Vec<u8>> = None;
    let m = packages.len();
    let mut k: usize = 0;
    let mut best: usize = 0;
    while k < m
        invariant
            k <= m,
            m == packages@.len(),
            k > 0 ==> best < k,
            k > 0 ==> forall|j: int|
                0 <= j < k ==> packages@[best as int].package_name@.len() <= (
                #[trigger] packages@[j].package_name@).len(),
        decreases m - k,
    {
        if k == 0 {
            best = 0;
        } else if packages[k].package_name.len() < packages[best].package_name.len() {
            best = k;
        }
        k = k + 1;
    }
    if m > 0 {
        let mut name: Vec<u8> = Vec::new();
        crate::text::push_bytes(&mut name, &packages[best].package_name);
        proof {
            assert(name@ =~= packages@[best as int].package_name@);
        }
        root = Some(name);
    }
    let packages_count = packages.len();
    GetPackagesResponse { packages, packages_count, root_package_name: root }
}

} // verus!
