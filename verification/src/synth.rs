//! Synthesis of Java source fragments from typed configurations.
//!
//! Every renderer is specified exactly: the bytes it produces are stated as
//! a spec-level concatenation of the configuration's parts, so a caller
//! knows the fragment byte for byte.

use vstd::prelude::*;
use vstd::string::StringSliceAdditionalSpecFns;
use vstd::utf8::encode_utf8;

use crate::catalog::BasicFieldConfig;
use crate::catalog::CascadeType;
use crate::catalog::EnumFieldConfig;
use crate::catalog::IdFieldConfig;
use crate::catalog::JavaFileType;
use crate::catalog::JavaIdGeneration;
use crate::catalog::JavaIdGenerationType;
use crate::catalog::ManyToOneFieldConfig;
use crate::catalog::OneToOneFieldConfig;
use crate::catalog::OtherType;
use crate::text::push_bytes;
use crate::text::push_str_bytes;

verus! {

/// The decimal digits of a nonnegative number.
pub open spec fn spec_dec(n: int) -> Seq<u8>
    decreases n,
{
    if n < 10 {
        seq![(48 + if n >= 0 {
            n
        } else {
            0
        }) as u8]
    } else {
        spec_dec(n / 10).push((48 + n % 10) as u8)
    }
}

/// The decimal rendering of a signed number: a minus sign before the digits
/// of the magnitude.
pub open spec fn spec_dec_signed(n: int) -> Seq<u8> {
    if n < 0 {
        seq![45u8] + spec_dec(-n)
    } else {
        spec_dec(n)
    }
}

/// Appends the decimal digits of `n`.
pub fn push_dec(out: &mut Vec<u8>, n: u64)
    ensures
        final(out)@ == old(out)@ + spec_dec(n as int),
    decreases n,
{
    if n < 10 {
        out.push(48 + (n as u8));
        proof {
            assert(old(out)@ + spec_dec(n as int) =~= old(out)@.push((48 + n as int) as u8));
        }
    } else {
        push_dec(out, n / 10);
        out.push(48 + ((n % 10) as u8));
        proof {
            assert(old(out)@ + spec_dec(n as int) =~= (old(out)@ + spec_dec(n as int / 10)).push(
                (48 + n as int % 10) as u8,
            ));
        }
    }
}

/// Appends the decimal rendering of a signed number.
pub fn push_dec_signed(out: &mut Vec<u8>, n: i64)
    ensures
        final(out)@ == old(out)@ + spec_dec_signed(n as int),
{
    if n < 0 {
        out.push(45u8);
        let m: u64 = #[verifier::truncate] ((-(n as i128)) as u64);
        proof {
            assert(m == -(n as int));
        }
        push_dec(out, m);
        proof {
            assert(old(out)@ + spec_dec_signed(n as int) =~= (old(out)@.push(45u8)) + spec_dec(
                m as int,
            ));
        }
    } else {
        push_dec(out, #[verifier::truncate] (n as u64));
    }
}

/// Appends the UTF-8 bytes of an owned string.
pub fn push_string_bytes(out: &mut Vec<u8>, s: &String)
    ensures
        final(out)@ == old(out)@ + encode_utf8(s@),
{
    push_str_bytes(out, s.as_str());
}

/// The pieces joined by the separator: empty for no pieces, otherwise the
/// pieces in order with the separator between neighbours.
pub open spec fn spec_join(ss: Seq<Seq<u8>>, sep: Seq<u8>) -> Seq<u8>
    decreases ss.len(),
{
    if ss.len() == 0 {
        Seq::empty()
    } else if ss.len() == 1 {
        ss[0]
    } else {
        ss[0] + sep + spec_join(ss.drop_first(), sep)
    }
}

/// The views of a list of byte buffers.
pub open spec fn views_of(pieces: Seq<Vec<u8>>) -> Seq<Seq<u8>> {
    pieces.map_values(|p: Vec<u8>| p@)
}

/// Appending one more piece extends the join by a separator and the piece.
proof fn lemma_join_push(ss: Seq<Seq<u8>>, sep: Seq<u8>, p: Seq<u8>)
    ensures
        spec_join(ss.push(p), sep) == if ss.len() == 0 {
            p
        } else {
            spec_join(ss, sep) + sep + p
        },
    decreases ss.len(),
{
    let pushed = ss.push(p);
    if ss.len() == 0 {
        assert(pushed.len() == 1);
        assert(pushed[0] == p);
    } else if ss.len() == 1 {
        assert(pushed.len() == 2);
        assert(pushed[0] == ss[0]);
        assert(pushed.drop_first() =~= seq![p]);
        assert(spec_join(seq![p], sep) == p);
    } else {
        assert(pushed.drop_first() =~= ss.drop_first().push(p));
        lemma_join_push(ss.drop_first(), sep, p);
        assert(spec_join(pushed, sep) == pushed[0] + sep + spec_join(
            ss.drop_first().push(p),
            sep,
        ));
        assert(ss[0] + sep + (spec_join(ss.drop_first(), sep) + sep + p) =~= (ss[0] + sep
            + spec_join(ss.drop_first(), sep)) + sep + p);
    }
}

/// Joins byte pieces with the given separator.
pub fn join_bytes(pieces: &Vec<Vec<u8>>, sep: &str) -> (r: Vec<u8>)
    ensures
        r@ == spec_join(views_of(pieces@), sep.spec_bytes()),
{
    let mut out: Vec<u8> = Vec::new();
    let n = pieces.len();
    let mut i: usize = 0;
    while i < n
        invariant
            i <= n,
            n == pieces@.len(),
            out@ == spec_join(views_of(pieces@.take(i as int)), sep.spec_bytes()),
        decreases n - i,
    {
        let ghost before = views_of(pieces@.take(i as int));
        if i > 0 {
            push_str_bytes(&mut out, sep);
        }
        push_bytes(&mut out, &pieces[i]);
        proof {
            assert(views_of(pieces@.take(i + 1)) =~= before.push(pieces@[i as int]@));
            lemma_join_push(before, sep.spec_bytes(), pieces@[i as int]@);
            assert(before.len() == i);
            if i == 0 {
                assert(out@ =~= pieces@[i as int]@);
            }
        }
        i = i + 1;
    }
    proof {
        assert(pieces@.take(n as int) =~= pieces@);
    }
    out
}

/// The attribute pieces of the column annotation of a basic field, in
/// catalog order: length, precision, scale, nullability, uniqueness.
pub open spec fn spec_column_attrs(c: BasicFieldConfig) -> Seq<Seq<u8>> {
    (if c.field_length is Some {
        seq!["length = ".spec_bytes() + spec_dec(c.field_length->0 as int)]
    } else {
        Seq::<Seq<u8>>::empty()
    }) + (if c.field_precision is Some {
        seq!["precision = ".spec_bytes() + spec_dec(c.field_precision->0 as int)]
    } else {
        Seq::<Seq<u8>>::empty()
    }) + (if c.field_scale is Some {
        seq!["scale = ".spec_bytes() + spec_dec(c.field_scale->0 as int)]
    } else {
        Seq::<Seq<u8>>::empty()
    }) + (if !c.field_nullable {
        seq!["nullable = false".spec_bytes()]
    } else {
        Seq::<Seq<u8>>::empty()
    }) + (if c.field_unique {
        seq!["unique = true".spec_bytes()]
    } else {
        Seq::<Seq<u8>>::empty()
    })
}

/// The attribute pieces of the column annotation of a basic field.
pub fn column_attr_pieces(c: &BasicFieldConfig) -> (r: Vec<Vec<u8>>)
    ensures
        views_of(r@) == spec_column_attrs(*c),
{
    let mut pieces: Vec<Vec<u8>> = Vec::new();
    if let Some(len) = c.field_length {
        let mut p: Vec<u8> = Vec::new();
        push_str_bytes(&mut p, "length = ");
        push_dec(&mut p, len as u64);
        pieces.push(p);
    }
    if let Some(prec) = c.field_precision {
        let mut p: Vec<u8> = Vec::new();
        push_str_bytes(&mut p, "precision = ");
        push_dec(&mut p, prec as u64);
        pieces.push(p);
    }
    if let Some(scale) = c.field_scale {
        let mut p: Vec<u8> = Vec::new();
        push_str_bytes(&mut p, "scale = ");
        push_dec(&mut p, scale as u64);
        pieces.push(p);
    }
    if !c.field_nullable {
        let mut p: Vec<u8> = Vec::new();
        push_str_bytes(&mut p, "nullable = false");
        pieces.push(p);
    }
    if c.field_unique {
        let mut p: Vec<u8> = Vec::new();
        push_str_bytes(&mut p, "unique = true");
        pieces.push(p);
    }
    proof {
        assert(views_of(pieces@) =~~= spec_column_attrs(*c));
    }
    pieces
}

/// The lines of the synthesized basic field, top to bottom: the column
/// annotation when any attribute differs from its default, the temporal and
/// timezone-storage annotations when configured, the large-object marker,
/// and the field declaration itself.
pub open spec fn spec_basic_field_lines(c: BasicFieldConfig) -> Seq<Seq<u8>> {
    (if spec_column_attrs(c).len() > 0 {
        seq!["@Column(".spec_bytes() + spec_join(spec_column_attrs(c), ", ".spec_bytes())
            + ")".spec_bytes()]
    } else {
        Seq::<Seq<u8>>::empty()
    }) + (if c.field_temporal is Some {
        seq!["@Temporal(TemporalType.".spec_bytes() + encode_utf8(
            c.field_temporal->0.spec_java_name(),
        ) + ")".spec_bytes()]
    } else {
        Seq::<Seq<u8>>::empty()
    }) + (if c.field_timezone_storage is Some {
        seq!["@TimeZoneStorage(TimeZoneStorageType.".spec_bytes() + encode_utf8(
            c.field_timezone_storage->0.spec_java_name(),
        ) + ")".spec_bytes()]
    } else {
        Seq::<Seq<u8>>::empty()
    }) + (if c.field_large_object {
        seq!["@Lob".spec_bytes()]
    } else {
        Seq::<Seq<u8>>::empty()
    }) + seq![
        "private ".spec_bytes() + encode_utf8(c.field_type@) + " ".spec_bytes() + encode_utf8(
            c.field_name@,
        ) + ";".spec_bytes()
    ]
}

/// The lines of the synthesized basic field.
pub fn basic_field_lines(c: &BasicFieldConfig) -> (r: Vec<Vec<u8>>)
    ensures
        views_of(r@) == spec_basic_field_lines(*c),
{
    let mut lines: Vec<Vec<u8>> = Vec::new();
    let attrs = column_attr_pieces(c);
    if attrs.len() > 0 {
        let mut l: Vec<u8> = Vec::new();
        push_str_bytes(&mut l, "@Column(");
        let joined = join_bytes(&attrs, ", ");
        push_bytes(&mut l, &joined);
        push_str_bytes(&mut l, ")");
        lines.push(l);
    }
    if let Some(t) = c.field_temporal {
        let mut l: Vec<u8> = Vec::new();
        push_str_bytes(&mut l, "@Temporal(TemporalType.");
        push_str_bytes(&mut l, t.java_name());
        push_str_bytes(&mut l, ")");
        lines.push(l);
    }
    if let Some(z) = c.field_timezone_storage {
        let mut l: Vec<u8> = Vec::new();
        push_str_bytes(&mut l, "@TimeZoneStorage(TimeZoneStorageType.");
        push_str_bytes(&mut l, z.java_name());
        push_str_bytes(&mut l, ")");
        lines.push(l);
    }
    if c.field_large_object {
        let mut l: Vec<u8> = Vec::new();
        push_str_bytes(&mut l, "@Lob");
        lines.push(l);
    }
    let mut decl: Vec<u8> = Vec::new();
    push_str_bytes(&mut decl, "private ");
    push_string_bytes(&mut decl, &c.field_type);
    push_str_bytes(&mut decl, " ");
    push_string_bytes(&mut decl, &c.field_name);
    push_str_bytes(&mut decl, ";");
    lines.push(decl);
    proof {
        assert(views_of(lines@) =~~= spec_basic_field_lines(*c));
    }
    lines
}

/// Whether an identifier configuration carries every name its rendering
/// needs: a sequence name for the sequence strategy, a generator name for
/// the table strategy.
pub open spec fn spec_id_config_renderable(c: IdFieldConfig) -> bool {
    &&& (c.field_id_generation == JavaIdGeneration::Generated && c.field_id_generation_type
        == JavaIdGenerationType::Sequence ==> c.field_sequence_name is Some)
    &&& (c.field_id_generation == JavaIdGeneration::Generated && c.field_id_generation_type
        == JavaIdGenerationType::Table ==> c.field_generator_name is Some)
}

/// The generator annotation lines of an identifier field: nothing for an
/// assigned identifier; the generated-value annotation for every strategy;
/// for the sequence and table strategies also their generator declaration.
pub open spec fn spec_id_generator_lines(c: IdFieldConfig) -> Seq<Seq<u8>> {
    match c.field_id_generation {
        JavaIdGeneration::Assigned => Seq::<Seq<u8>>::empty(),
        JavaIdGeneration::Generated => match c.field_id_generation_type {
            JavaIdGenerationType::Auto | JavaIdGenerationType::Identity => {
                seq![
                    "@GeneratedValue(strategy = GenerationType.".spec_bytes() + encode_utf8(
                        c.field_id_generation_type.spec_java_name(),
                    ) + ")".spec_bytes()
                ]
            },
            JavaIdGenerationType::Sequence => {
                let sn = encode_utf8(c.field_sequence_name->0@);
                seq![
                    "@GeneratedValue(strategy = GenerationType.SEQUENCE, generator = \"".spec_bytes()
                        + sn + "\")".spec_bytes(),
                    "@SequenceGenerator(name = \"".spec_bytes() + sn
                        + "\", sequenceName = \"".spec_bytes() + sn + "\"".spec_bytes() + (
                    if c.field_initial_value is Some {
                        ", initialValue = ".spec_bytes() + spec_dec_signed(
                            c.field_initial_value->0 as int,
                        )
                    } else {
                        Seq::<u8>::empty()
                    }) + (if c.field_allocation_size is Some {
                        ", allocationSize = ".spec_bytes() + spec_dec_signed(
                            c.field_allocation_size->0 as int,
                        )
                    } else {
                        Seq::<u8>::empty()
                    }) + ")".spec_bytes(),
                ]
            },
            JavaIdGenerationType::Table => {
                let gn = encode_utf8(c.field_generator_name->0@);
                seq![
                    "@GeneratedValue(strategy = GenerationType.TABLE, generator = \"".spec_bytes()
                        + gn + "\")".spec_bytes(),
                    "@TableGenerator(name = \"".spec_bytes() + gn + "\")".spec_bytes(),
                ]
            },
        },
    }
}

/// The lines of the synthesized identifier field: the identifier marker,
/// the generator annotations, the column annotation when the field is not
/// nullable, and the field declaration.
pub open spec fn spec_id_field_lines(c: IdFieldConfig) -> Seq<Seq<u8>> {
    seq!["@Id".spec_bytes()] + spec_id_generator_lines(c) + (if !c.field_nullable {
        seq!["@Column(nullable = false)".spec_bytes()]
    } else {
        Seq::<Seq<u8>>::empty()
    }) + seq![
        "private ".spec_bytes() + encode_utf8(c.field_type@) + " ".spec_bytes() + encode_utf8(
            c.field_name@,
        ) + ";".spec_bytes()
    ]
}

/// The lines of the synthesized identifier field.
#[verifier::rlimit(100)]
pub fn id_field_lines(c: &IdFieldConfig) -> (r: Vec<Vec<u8>>)
    requires
        spec_id_config_renderable(*c),
    ensures
        views_of(r@) == spec_id_field_lines(*c),
{
    let mut lines: Vec<Vec<u8>> = Vec::new();
    let mut id_line: Vec<u8> = Vec::new();
    push_str_bytes(&mut id_line, "@Id");
    lines.push(id_line);
    match c.field_id_generation {
        JavaIdGeneration::Assigned => {},
        JavaIdGeneration::Generated => {
            match c.field_id_generation_type {
                JavaIdGenerationType::Auto | JavaIdGenerationType::Identity => {
                    let mut l: Vec<u8> = Vec::new();
                    push_str_bytes(&mut l, "@GeneratedValue(strategy = GenerationType.");
                    push_str_bytes(&mut l, c.field_id_generation_type.java_name());
                    push_str_bytes(&mut l, ")");
                    lines.push(l);
                },
                JavaIdGenerationType::Sequence => {
                    let sn = match &c.field_sequence_name {
                        Some(s) => s,
                        None => {
                            proof {
                                assert(false);
                            }
                            &c.field_name
                        },
                    };
                    let mut l1: Vec<u8> = Vec::new();
                    push_str_bytes(
                        &mut l1,
                        "@GeneratedValue(strategy = GenerationType.SEQUENCE, generator = \"",
                    );
                    push_string_bytes(&mut l1, sn);
                    push_str_bytes(&mut l1, "\")");
                    lines.push(l1);
                    let mut l2: Vec<u8> = Vec::new();
                    push_str_bytes(&mut l2, "@SequenceGenerator(name = \"");
                    push_string_bytes(&mut l2, sn);
                    push_str_bytes(&mut l2, "\", sequenceName = \"");
                    push_string_bytes(&mut l2, sn);
                    push_str_bytes(&mut l2, "\"");
                    if let Some(iv) = c.field_initial_value {
                        push_str_bytes(&mut l2, ", initialValue = ");
                        push_dec_signed(&mut l2, iv);
                    }
                    if let Some(al) = c.field_allocation_size {
                        push_str_bytes(&mut l2, ", allocationSize = ");
                        push_dec_signed(&mut l2, al);
                    }
                    push_str_bytes(&mut l2, ")");
                    lines.push(l2);
                },
                JavaIdGenerationType::Table => {
                    let gn = match &c.field_generator_name {
                        Some(s) => s,
                        None => {
                            proof {
                                assert(false);
                            }
                            &c.field_name
                        },
                    };
                    let mut l1: Vec<u8> = Vec::new();
                    push_str_bytes(
                        &mut l1,
                        "@GeneratedValue(strategy = GenerationType.TABLE, generator = \"",
                    );
                    push_string_bytes(&mut l1, gn);
                    push_str_bytes(&mut l1, "\")");
                    lines.push(l1);
                    let mut l2: Vec<u8> = Vec::new();
                    push_str_bytes(&mut l2, "@TableGenerator(name = \"");
                    push_string_bytes(&mut l2, gn);
                    push_str_bytes(&mut l2, "\")");
                    lines.push(l2);
                },
            }
        },
    }
    if !c.field_nullable {
        let mut l: Vec<u8> = Vec::new();
        push_str_bytes(&mut l, "@Column(nullable = false)");
        lines.push(l);
    }
    let mut decl: Vec<u8> = Vec::new();
    push_str_bytes(&mut decl, "private ");
    push_string_bytes(&mut decl, &c.field_type);
    push_str_bytes(&mut decl, " ");
    push_string_bytes(&mut decl, &c.field_name);
    push_str_bytes(&mut decl, ";");
    lines.push(decl);
    proof {
        assert(views_of(lines@) =~~= spec_id_field_lines(*c));
    }
    lines
}

/// The attribute pieces of the column annotation of an enum field: length,
/// nullability, uniqueness.
pub open spec fn spec_enum_column_attrs(c: EnumFieldConfig) -> Seq<Seq<u8>> {
    (if c.field_length is Some {
        seq!["length = ".spec_bytes() + spec_dec(c.field_length->0 as int)]
    } else {
        Seq::<Seq<u8>>::empty()
    }) + (if !c.field_nullable {
        seq!["nullable = false".spec_bytes()]
    } else {
        Seq::<Seq<u8>>::empty()
    }) + (if c.field_unique {
        seq!["unique = true".spec_bytes()]
    } else {
        Seq::<Seq<u8>>::empty()
    })
}

/// The lines of the synthesized enum field: the enumerated-storage
/// annotation, the column annotation when any attribute differs from its
/// default, and the field declaration.
pub open spec fn spec_enum_field_lines(c: EnumFieldConfig) -> Seq<Seq<u8>> {
    seq![
        "@Enumerated(EnumType.".spec_bytes() + encode_utf8(c.enum_type_storage.spec_java_name())
            + ")".spec_bytes()
    ] + (if spec_enum_column_attrs(c).len() > 0 {
        seq!["@Column(".spec_bytes() + spec_join(spec_enum_column_attrs(c), ", ".spec_bytes())
            + ")".spec_bytes()]
    } else {
        Seq::<Seq<u8>>::empty()
    }) + seq![
        "private ".spec_bytes() + encode_utf8(c.enum_type@) + " ".spec_bytes() + encode_utf8(
            c.field_name@,
        ) + ";".spec_bytes()
    ]
}

/// The lines of the synthesized enum field.
pub fn enum_field_lines(c: &EnumFieldConfig) -> (r: Vec<Vec<u8>>)
    ensures
        views_of(r@) == spec_enum_field_lines(*c),
{
    let mut lines: Vec<Vec<u8>> = Vec::new();
    let mut en: Vec<u8> = Vec::new();
    push_str_bytes(&mut en, "@Enumerated(EnumType.");
    push_str_bytes(&mut en, c.enum_type_storage.java_name());
    push_str_bytes(&mut en, ")");
    lines.push(en);
    let mut attrs: Vec<Vec<u8>> = Vec::new();
    if let Some(len) = c.field_length {
        let mut p: Vec<u8> = Vec::new();
        push_str_bytes(&mut p, "length = ");
        push_dec(&mut p, len as u64);
        attrs.push(p);
    }
    if !c.field_nullable {
        let mut p: Vec<u8> = Vec::new();
        push_str_bytes(&mut p, "nullable = false");
        attrs.push(p);
    }
    if c.field_unique {
        let mut p: Vec<u8> = Vec::new();
        push_str_bytes(&mut p, "unique = true");
        attrs.push(p);
    }
    proof {
        assert(views_of(attrs@) =~~= spec_enum_column_attrs(*c));
    }
    if attrs.len() > 0 {
        let mut l: Vec<u8> = Vec::new();
        push_str_bytes(&mut l, "@Column(");
        let joined = join_bytes(&attrs, ", ");
        push_bytes(&mut l, &joined);
        push_str_bytes(&mut l, ")");
        lines.push(l);
    }
    let mut decl: Vec<u8> = Vec::new();
    push_str_bytes(&mut decl, "private ");
    push_string_bytes(&mut decl, &c.enum_type);
    push_str_bytes(&mut decl, " ");
    push_string_bytes(&mut decl, &c.field_name);
    push_str_bytes(&mut decl, ";");
    lines.push(decl);
    proof {
        assert(views_of(lines@) =~~= spec_enum_field_lines(*c));
    }
    lines
}

/// The cascade constants of a cascade list, each as a qualified Java name.
pub open spec fn spec_cascade_pieces(s: Seq<CascadeType>) -> Seq<Seq<u8>> {
    s.map_values(|c: CascadeType| "CascadeType.".spec_bytes() + encode_utf8(c.spec_java_name()))
}

/// The cascade attribute value: one constant stands alone, several stand in
/// braces.
pub open spec fn spec_cascade_expr(s: Seq<CascadeType>) -> Seq<u8> {
    if s.len() == 1 {
        spec_cascade_pieces(s)[0]
    } else {
        "{ ".spec_bytes() + spec_join(spec_cascade_pieces(s), ", ".spec_bytes())
            + " }".spec_bytes()
    }
}

fn cascade_pieces(s: &Vec<CascadeType>) -> (r: Vec<Vec<u8>>)
    ensures
        views_of(r@) == spec_cascade_pieces(s@),
{
    let n = s.len();
    let mut out: Vec<Vec<u8>> = Vec::new();
    let mut i: usize = 0;
    while i < n
        invariant
            i <= n,
            n == s@.len(),
            views_of(out@) =~~= spec_cascade_pieces(s@.take(i as int)),
        decreases n - i,
    {
        let mut p: Vec<u8> = Vec::new();
        push_str_bytes(&mut p, "CascadeType.");
        push_str_bytes(&mut p, s[i].java_name());
        proof {
            assert(p@ =~= "CascadeType.".spec_bytes() + encode_utf8(
                s@[i as int].spec_java_name(),
            ));
        }
        let ghost prev = out@;
        out.push(p);
        proof {
            let tk = s@.take(i + 1);
            assert(views_of(prev).len() == prev.len());
            assert(prev.len() == i);
            assert forall|j: int| 0 <= j < i + 1 implies views_of(out@)[j] == spec_cascade_pieces(
                tk,
            )[j] by {
                assert(tk[j] == s@[j]);
                assert(spec_cascade_pieces(tk)[j] == "CascadeType.".spec_bytes() + encode_utf8(
                    tk[j].spec_java_name(),
                ));
                if j < i {
                    assert(out@[j] == prev[j]);
                    assert(views_of(prev)[j] == spec_cascade_pieces(s@.take(i as int))[j]);
                    assert(spec_cascade_pieces(s@.take(i as int))[j] == "CascadeType.".spec_bytes()
                        + encode_utf8(s@.take(i as int)[j].spec_java_name()));
                } else {
                    assert(out@[j] == p);
                }
            }
            assert(views_of(out@) =~~= spec_cascade_pieces(tk));
        }
        i = i + 1;
    }
    proof {
        assert(s@.take(n as int) =~= s@);
    }
    out
}

fn cascade_expr(s: &Vec<CascadeType>) -> (r: Vec<u8>)
    requires
        s@.len() >= 1,
    ensures
        r@ == spec_cascade_expr(s@),
{
    let pieces = cascade_pieces(s);
    proof {
        assert(views_of(pieces@).len() == pieces@.len());
        assert(pieces@.len() == s@.len());
        assert(views_of(pieces@)[0] == pieces@[0]@);
    }
    if s.len() == 1 {
        let mut out: Vec<u8> = Vec::new();
        push_bytes(&mut out, &pieces[0]);
        proof {
            assert(out@ =~= spec_cascade_expr(s@));
        }
        out
    } else {
        let mut out: Vec<u8> = Vec::new();
        push_str_bytes(&mut out, "{ ");
        let joined = join_bytes(&pieces, ", ");
        push_bytes(&mut out, &joined);
        push_str_bytes(&mut out, " }");
        proof {
            assert(out@ =~= spec_cascade_expr(s@));
        }
        out
    }
}

/// The attribute pieces contributed by the orthogonal modifiers.
pub open spec fn spec_other_pieces(s: Seq<OtherType>) -> Seq<Seq<u8>> {
    s.map_values(|o: OtherType| encode_utf8(o.spec_attribute()))
}

fn other_pieces(s: &Vec<OtherType>) -> (r: Vec<Vec<u8>>)
    ensures
        views_of(r@) == spec_other_pieces(s@),
{
    let n = s.len();
    let mut out: Vec<Vec<u8>> = Vec::new();
    let mut i: usize = 0;
    while i < n
        invariant
            i <= n,
            n == s@.len(),
            views_of(out@) =~~= spec_other_pieces(s@.take(i as int)),
        decreases n - i,
    {
        let mut p: Vec<u8> = Vec::new();
        push_str_bytes(&mut p, s[i].attribute());
        proof {
            assert(p@ =~= encode_utf8(s@[i as int].spec_attribute()));
        }
        let ghost prev = out@;
        out.push(p);
        proof {
            let tk = s@.take(i + 1);
            assert(views_of(prev).len() == prev.len());
            assert(prev.len() == i);
            assert forall|j: int| 0 <= j < i + 1 implies views_of(out@)[j] == spec_other_pieces(
                tk,
            )[j] by {
                assert(tk[j] == s@[j]);
                assert(spec_other_pieces(tk)[j] == encode_utf8(tk[j].spec_attribute()));
                if j < i {
                    assert(out@[j] == prev[j]);
                    assert(views_of(prev)[j] == spec_other_pieces(s@.take(i as int))[j]);
                    assert(spec_other_pieces(s@.take(i as int))[j] == encode_utf8(
                        s@.take(i as int)[j].spec_attribute(),
                    ));
                } else {
                    assert(out@[j] == p);
                }
            }
            assert(views_of(out@) =~~= spec_other_pieces(tk));
        }
        i = i + 1;
    }
    proof {
        assert(s@.take(n as int) =~= s@);
    }
    out
}

/// The association annotation line: the head, then the attributes in
/// parentheses when any exist.
pub open spec fn spec_association_line(head: Seq<u8>, attrs: Seq<Seq<u8>>) -> Seq<u8> {
    if attrs.len() == 0 {
        head
    } else {
        head + "(".spec_bytes() + spec_join(attrs, ", ".spec_bytes()) + ")".spec_bytes()
    }
}

/// The join-column line of an owning-side relationship field.
pub open spec fn spec_join_column_line(field_name: Seq<char>) -> Seq<u8> {
    "@JoinColumn(name = \"".spec_bytes() + encode_utf8(field_name) + "_id\")".spec_bytes()
}

/// The declaration line of an owning-side relationship field.
pub open spec fn spec_relationship_decl_line(ty: Seq<char>, field_name: Seq<char>) -> Seq<u8> {
    "private ".spec_bytes() + encode_utf8(ty) + " ".spec_bytes() + encode_utf8(field_name)
        + ";".spec_bytes()
}

/// The owning-side attribute pieces of a one-to-one association: the
/// normalized cascades, then the orthogonal modifiers.
pub open spec fn spec_one_to_one_attrs(
    cascades: Seq<CascadeType>,
    others: Seq<OtherType>,
) -> Seq<Seq<u8>> {
    (if cascades.len() > 0 {
        seq!["cascade = ".spec_bytes() + spec_cascade_expr(cascades)]
    } else {
        Seq::<Seq<u8>>::empty()
    }) + spec_other_pieces(others)
}

/// The lines of the owning side of a one-to-one association: the
/// association annotation, the join column, the field declaration.
pub open spec fn spec_one_to_one_lines(
    field_name: Seq<char>,
    c: OneToOneFieldConfig,
    cascades: Seq<CascadeType>,
) -> Seq<Seq<u8>> {
    seq![
        spec_association_line(
            "@OneToOne".spec_bytes(),
            spec_one_to_one_attrs(cascades, c.owning_side_other@),
        ),
        spec_join_column_line(field_name),
        spec_relationship_decl_line(c.inverse_field_type@, field_name),
    ]
}

/// The lines of the owning side of a one-to-one association; `cascades` is
/// the normalized owning-side cascade list.
pub fn one_to_one_lines(
    field_name: &String,
    c: &OneToOneFieldConfig,
    cascades: &Vec<CascadeType>,
) -> (r: Vec<Vec<u8>>)
    ensures
        views_of(r@) == spec_one_to_one_lines(field_name@, *c, cascades@),
{
    let mut attrs: Vec<Vec<u8>> = Vec::new();
    if cascades.len() > 0 {
        let mut p: Vec<u8> = Vec::new();
        push_str_bytes(&mut p, "cascade = ");
        let expr = cascade_expr(cascades);
        push_bytes(&mut p, &expr);
        attrs.push(p);
    }
    let mut oth = other_pieces(&c.owning_side_other);
    attrs.append(&mut oth);
    proof {
        assert(views_of(attrs@) =~~= spec_one_to_one_attrs(cascades@, c.owning_side_other@));
    }
    let mut lines: Vec<Vec<u8>> = Vec::new();
    let mut ann: Vec<u8> = Vec::new();
    push_str_bytes(&mut ann, "@OneToOne");
    if attrs.len() > 0 {
        push_str_bytes(&mut ann, "(");
        let joined = join_bytes(&attrs, ", ");
        push_bytes(&mut ann, &joined);
        push_str_bytes(&mut ann, ")");
    }
    proof {
        assert(ann@ =~= spec_association_line(
            "@OneToOne".spec_bytes(),
            spec_one_to_one_attrs(cascades@, c.owning_side_other@),
        ));
    }
    lines.push(ann);
    let mut jc: Vec<u8> = Vec::new();
    push_str_bytes(&mut jc, "@JoinColumn(name = \"");
    push_string_bytes(&mut jc, field_name);
    push_str_bytes(&mut jc, "_id\")");
    lines.push(jc);
    let mut decl: Vec<u8> = Vec::new();
    push_str_bytes(&mut decl, "private ");
    push_string_bytes(&mut decl, &c.inverse_field_type);
    push_str_bytes(&mut decl, " ");
    push_string_bytes(&mut decl, field_name);
    push_str_bytes(&mut decl, ";");
    lines.push(decl);
    proof {
        assert(views_of(lines@) =~~= spec_one_to_one_lines(field_name@, *c, cascades@));
    }
    lines
}

/// The owning-side attribute pieces of a many-to-one association: the fetch
/// strategy, the normalized cascades, the orthogonal modifiers.
pub open spec fn spec_many_to_one_attrs(
    c: ManyToOneFieldConfig,
    cascades: Seq<CascadeType>,
) -> Seq<Seq<u8>> {
    seq!["fetch = FetchType.".spec_bytes() + encode_utf8(c.fetch_type.spec_java_name())] + (
    if cascades.len() > 0 {
        seq!["cascade = ".spec_bytes() + spec_cascade_expr(cascades)]
    } else {
        Seq::<Seq<u8>>::empty()
    }) + spec_other_pieces(c.owning_side_other@)
}

/// The lines of the owning side of a many-to-one association.
pub open spec fn spec_many_to_one_lines(
    field_name: Seq<char>,
    c: ManyToOneFieldConfig,
    cascades: Seq<CascadeType>,
) -> Seq<Seq<u8>> {
    seq![
        spec_association_line("@ManyToOne".spec_bytes(), spec_many_to_one_attrs(c, cascades)),
        spec_join_column_line(field_name),
        spec_relationship_decl_line(c.inverse_field_type@, field_name),
    ]
}

/// The lines of the owning side of a many-to-one association; `cascades` is
/// the normalized owning-side cascade list.
pub fn many_to_one_lines(
    field_name: &String,
    c: &ManyToOneFieldConfig,
    cascades: &Vec<CascadeType>,
) -> (r: Vec<Vec<u8>>)
    ensures
        views_of(r@) == spec_many_to_one_lines(field_name@, *c, cascades@),
{
    let mut attrs: Vec<Vec<u8>> = Vec::new();
    let mut fp: Vec<u8> = Vec::new();
    push_str_bytes(&mut fp, "fetch = FetchType.");
    push_str_bytes(&mut fp, c.fetch_type.java_name());
    attrs.push(fp);
    if cascades.len() > 0 {
        let mut p: Vec<u8> = Vec::new();
        push_str_bytes(&mut p, "cascade = ");
        let expr = cascade_expr(cascades);
        push_bytes(&mut p, &expr);
        attrs.push(p);
    }
    let mut oth = other_pieces(&c.owning_side_other);
    attrs.append(&mut oth);
    proof {
        assert(views_of(attrs@) =~~= spec_many_to_one_attrs(*c, cascades@));
    }
    let mut lines: Vec<Vec<u8>> = Vec::new();
    let mut ann: Vec<u8> = Vec::new();
    push_str_bytes(&mut ann, "@ManyToOne");
    push_str_bytes(&mut ann, "(");
    let joined = join_bytes(&attrs, ", ");
    push_bytes(&mut ann, &joined);
    push_str_bytes(&mut ann, ")");
    proof {
        assert(attrs@.len() > 0);
        assert(ann@ =~= spec_association_line(
            "@ManyToOne".spec_bytes(),
            spec_many_to_one_attrs(*c, cascades@),
        ));
    }
    lines.push(ann);
    let mut jc: Vec<u8> = Vec::new();
    push_str_bytes(&mut jc, "@JoinColumn(name = \"");
    push_string_bytes(&mut jc, field_name);
    push_str_bytes(&mut jc, "_id\")");
    lines.push(jc);
    let mut decl: Vec<u8> = Vec::new();
    push_str_bytes(&mut decl, "private ");
    push_string_bytes(&mut decl, &c.inverse_field_type);
    push_str_bytes(&mut decl, " ");
    push_string_bytes(&mut decl, field_name);
    push_str_bytes(&mut decl, ";");
    lines.push(decl);
    proof {
        assert(views_of(lines@) =~~= spec_many_to_one_lines(field_name@, *c, cascades@));
    }
    lines
}

/// A repository compilation unit: the package clause, the repository-base
/// import, the import of the identifier type when the catalog lists one,
/// and an empty public repository interface parameterized by the entity
/// type and its identifier type.
pub open spec fn spec_repository_file(
    package_name: Seq<u8>,
    entity_type: Seq<u8>,
    id_type: Seq<u8>,
    id_import: Option<Seq<char>>,
) -> Seq<u8> {
    "package ".spec_bytes() + package_name
        + ";\n\nimport org.springframework.data.jpa.repository.JpaRepository;\n".spec_bytes() + (
    if id_import is Some {
        "import ".spec_bytes() + encode_utf8(id_import->0) + ";\n".spec_bytes()
    } else {
        Seq::<u8>::empty()
    }) + "\npublic interface ".spec_bytes() + entity_type
        + "Repository extends JpaRepository<".spec_bytes() + entity_type + ", ".spec_bytes()
        + id_type + "> {\n}\n".spec_bytes()
}

/// Renders a repository compilation unit; `id_import` is the import the
/// identifier type needs, when the catalog lists one.
pub fn repository_file(
    package_name: &Vec<u8>,
    entity_type: &Vec<u8>,
    id_type: &Vec<u8>,
    id_import: &Option<String>,
) -> (r: Vec<u8>)
    ensures
        r@ == spec_repository_file(
            package_name@,
            entity_type@,
            id_type@,
            match id_import {
                Some(s) => Some(s@),
                None => None,
            },
        ),
{
    let mut out: Vec<u8> = Vec::new();
    push_str_bytes(&mut out, "package ");
    push_bytes(&mut out, package_name);
    push_str_bytes(
        &mut out,
        ";\n\nimport org.springframework.data.jpa.repository.JpaRepository;\n",
    );
    if let Some(imp) = id_import {
        push_str_bytes(&mut out, "import ");
        push_string_bytes(&mut out, imp);
        push_str_bytes(&mut out, ";\n");
    }
    push_str_bytes(&mut out, "\npublic interface ");
    push_bytes(&mut out, entity_type);
    push_str_bytes(&mut out, "Repository extends JpaRepository<");
    push_bytes(&mut out, entity_type);
    push_str_bytes(&mut out, ", ");
    push_bytes(&mut out, id_type);
    push_str_bytes(&mut out, "> {\n}\n");
    proof {
        assert(out@ =~= spec_repository_file(
            package_name@,
            entity_type@,
            id_type@,
            match id_import {
                Some(s) => Some(s@),
                None => None,
            },
        ));
    }
    out
}

} // verus!

