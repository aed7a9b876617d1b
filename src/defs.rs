use vstd::prelude::*;

use crate::text::str_eq;

verus! {

/// A JSON document as the layout descriptions are read: object entries keep
/// the order in which they appear.
#[derive(Debug)]
pub enum Json {
    Null,
    Bool(bool),
    /// A number, in the text that it was written with.
    Number(String),
    Str(String),
    Array(Vec<Json>),
    Object(Vec<(String, Json)>),
}

/// Why a layout description could not be decoded.
#[derive(Debug)]
pub enum DecodeError {
    /// A value of the wrong JSON kind.
    InvalidType,
    /// An object key that the target type does not have.
    UnknownField(String),
    /// A required key that the object lacks.
    MissingField(String),
}

/// The mathematical value of a [`DecodeError`].
pub enum DecodeErrorView {
    InvalidType,
    UnknownField(Seq<char>),
    MissingField(Seq<char>),
}

impl View for DecodeError {
    type V = DecodeErrorView;

    open spec fn view(&self) -> DecodeErrorView {
        match self {
            DecodeError::InvalidType => DecodeErrorView::InvalidType,
            DecodeError::UnknownField(k) => DecodeErrorView::UnknownField(k@),
            DecodeError::MissingField(k) => DecodeErrorView::MissingField(k@),
        }
    }
}

pub open spec fn opt_view(o: Option<String>) -> Option<Seq<char>> {
    match o {
        Some(s) => Some(s@),
        None => None,
    }
}

/// One field of a native struct: its name, its C type and its doc comment.
#[derive(Debug)]
pub struct Field {
    pub name: Option<String>,
    pub c_type: Option<String>,
    pub comment: Option<String>,
}

pub struct FieldView {
    pub name: Option<Seq<char>>,
    pub c_type: Option<Seq<char>>,
    pub comment: Option<Seq<char>>,
}

impl View for Field {
    type V = FieldView;

    open spec fn view(&self) -> FieldView {
        FieldView {
            name: opt_view(self.name),
            c_type: opt_view(self.c_type),
            comment: opt_view(self.comment),
        }
    }
}

/// An optional string: `null` is absent, a string is present, anything else
/// is refused.
pub open spec fn opt_string_of(j: Json) -> Result<Option<Seq<char>>, DecodeErrorView> {
    match j {
        Json::Null => Ok(None),
        Json::Str(s) => Ok(Some(s@)),
        _ => Err(DecodeErrorView::InvalidType),
    }
}

pub fn decode_opt_string(j: &Json) -> (r: Result<Option<String>, DecodeError>)
    ensures
        match r {
            Ok(o) => opt_string_of(*j) == Ok::<Option<Seq<char>>, DecodeErrorView>(opt_view(o)),
            Err(e) => opt_string_of(*j) == Err::<Option<Seq<char>>, DecodeErrorView>(e@),
        },
{
    match j {
        Json::Null => Ok(None),
        Json::Str(s) => Ok(Some(s.clone())),
        _ => Err(DecodeError::InvalidType),
    }
}

/// Decoding of one object entry into a field under construction: a known key
/// replaces that part, any other key is refused.
pub open spec fn field_step(f: FieldView, k: Seq<char>, v: Json) -> Result<FieldView, DecodeErrorView> {
    if k == "name"@ || k == "c_type"@ || k == "comment"@ {
        match opt_string_of(v) {
            Err(e) => Err(e),
            Ok(x) => if k == "name"@ {
                Ok(FieldView { name: x, ..f })
            } else if k == "c_type"@ {
                Ok(FieldView { c_type: x, ..f })
            } else {
                Ok(FieldView { comment: x, ..f })
            },
        }
    } else {
        Err(DecodeErrorView::UnknownField(k))
    }
}

/// Decoding of object entries in order, from the field decoded so far; the
/// first refused entry decides the error.
pub open spec fn field_scan(f: FieldView, es: Seq<(String, Json)>) -> Result<FieldView, DecodeErrorView>
    decreases es.len(),
{
    if es.len() == 0 {
        Ok(f)
    } else {
        match field_step(f, es[0].0@, es[0].1) {
            Err(e) => Err(e),
            Ok(g) => field_scan(g, es.drop_first()),
        }
    }
}

/// A field decoded from a JSON object; every key is optional.
pub open spec fn field_of(j: Json) -> Result<FieldView, DecodeErrorView> {
    match j {
        Json::Object(es) => field_scan(FieldView { name: None, c_type: None, comment: None }, es@),
        _ => Err(DecodeErrorView::InvalidType),
    }
}

impl Field {
    /// Decodes a field from its JSON description.
    pub fn deserialize(j: &Json) -> (r: Result<Field, DecodeError>)
        ensures
            match r {
                Ok(f) => field_of(*j) == Ok::<FieldView, DecodeErrorView>(f@),
                Err(e) => field_of(*j) == Err::<FieldView, DecodeErrorView>(e@),
            },
    {
        let es = match j {
            Json::Object(es) => es,
            _ => return Err(DecodeError::InvalidType),
        };
        let mut f = Field { name: None, c_type: None, comment: None };
        let mut i: usize = 0;
        proof {
            assert(es@.subrange(0, es@.len() as int) =~= es@);
        }
        while i < es.len()
            invariant
                *j == Json::Object(*es),
                i <= es@.len(),
                field_of(*j) == field_scan(f@, es@.subrange(i as int, es@.len() as int)),
            decreases es@.len() - i,
        {
            let e = &es[i];
            proof {
                let rest = es@.subrange(i as int, es@.len() as int);
                assert(rest[0] == es@[i as int]);
                assert(rest.drop_first() =~= es@.subrange(i + 1, es@.len() as int));
            }
            let k = &e.0;
            let is_name = str_eq(k.as_str(), "name");
            let is_c_type = str_eq(k.as_str(), "c_type");
            let is_comment = str_eq(k.as_str(), "comment");
            if !(is_name || is_c_type || is_comment) {
                return Err(DecodeError::UnknownField(k.clone()));
            }
            let x = match decode_opt_string(&e.1) {
                Ok(x) => x,
                Err(err) => return Err(err),
            };
            if is_name {
                f.name = x;
            } else if is_c_type {
                f.c_type = x;
            } else {
                f.comment = x;
            }
            i = i + 1;
        }
        proof {
            assert(es@.subrange(es@.len() as int, es@.len() as int) =~= Seq::<(String, Json)>::empty());
        }
        Ok(f)
    }
}

/// A field decoded from each element of a JSON array, in order; the first
/// element that is refused decides the error.
pub open spec fn fields_scan(acc: Seq<FieldView>, items: Seq<Json>) -> Result<Seq<FieldView>, DecodeErrorView>
    decreases items.len(),
{
    if items.len() == 0 {
        Ok(acc)
    } else {
        match field_of(items[0]) {
            Err(e) => Err(e),
            Ok(f) => fields_scan(acc.push(f), items.drop_first()),
        }
    }
}

pub open spec fn fields_of(j: Json) -> Result<Seq<FieldView>, DecodeErrorView> {
    match j {
        Json::Array(items) => fields_scan(Seq::empty(), items@),
        _ => Err(DecodeErrorView::InvalidType),
    }
}

pub open spec fn fields_view(v: Seq<Field>) -> Seq<FieldView> {
    v.map_values(|f: Field| f@)
}

/// Decodes a JSON array of field descriptions.
pub fn decode_fields(j: &Json) -> (r: Result<Vec<Field>, DecodeError>)
    ensures
        match r {
            Ok(v) => fields_of(*j) == Ok::<Seq<FieldView>, DecodeErrorView>(fields_view(v@)),
            Err(e) => fields_of(*j) == Err::<Seq<FieldView>, DecodeErrorView>(e@),
        },
{
    let items = match j {
        Json::Array(items) => items,
        _ => return Err(DecodeError::InvalidType),
    };
    let mut out: Vec<Field> = Vec::new();
    let mut i: usize = 0;
    proof {
        assert(items@.subrange(0, items@.len() as int) =~= items@);
        assert(fields_view(out@) =~= Seq::<FieldView>::empty());
    }
    while i < items.len()
        invariant
            *j == Json::Array(*items),
            i <= items@.len(),
            fields_of(*j) == fields_scan(fields_view(out@), items@.subrange(i as int, items@.len() as int)),
        decreases items@.len() - i,
    {
        proof {
            let rest = items@.subrange(i as int, items@.len() as int);
            assert(rest[0] == items@[i as int]);
            assert(rest.drop_first() =~= items@.subrange(i + 1, items@.len() as int));
        }
        match Field::deserialize(&items[i]) {
            Ok(f) => {
                let ghost before = out@;
                out.push(f);
                proof {
                    assert(fields_view(out@) =~= fields_view(before).push(f@));
                }
            },
            Err(err) => return Err(err),
        }
        i = i + 1;
    }
    proof {
        assert(items@.subrange(items@.len() as int, items@.len() as int) =~= Seq::<Json>::empty());
    }
    Ok(out)
}

pub open spec fn opt_fields_view(o: Option<Vec<Field>>) -> Option<Seq<FieldView>> {
    match o {
        Some(v) => Some(fields_view(v@)),
        None => None,
    }
}

/// A native struct: its fields and its doc comment.
#[derive(Debug)]
pub struct Struct {
    pub fields: Vec<Field>,
    pub comment: Option<String>,
}

pub struct StructView {
    pub fields: Seq<FieldView>,
    pub comment: Option<Seq<char>>,
}

impl View for Struct {
    type V = StructView;

    open spec fn view(&self) -> StructView {
        StructView { fields: fields_view(self.fields@), comment: opt_view(self.comment) }
    }
}

/// A struct being decoded: what the entries read so far have given.
pub struct StructProgress {
    pub fields: Option<Seq<FieldView>>,
    pub comment: Option<Seq<char>>,
}

pub open spec fn struct_step(p: StructProgress, k: Seq<char>, v: Json) -> Result<StructProgress, DecodeErrorView> {
    if k == "fields"@ {
        match fields_of(v) {
            Err(e) => Err(e),
            Ok(x) => Ok(StructProgress { fields: Some(x), ..p }),
        }
    } else if k == "comment"@ {
        match opt_string_of(v) {
            Err(e) => Err(e),
            Ok(x) => Ok(StructProgress { comment: x, ..p }),
        }
    } else {
        Err(DecodeErrorView::UnknownField(k))
    }
}

pub open spec fn struct_scan(p: StructProgress, es: Seq<(String, Json)>) -> Result<StructProgress, DecodeErrorView>
    decreases es.len(),
{
    if es.len() == 0 {
        Ok(p)
    } else {
        match struct_step(p, es[0].0@, es[0].1) {
            Err(e) => Err(e),
            Ok(q) => struct_scan(q, es.drop_first()),
        }
    }
}

/// A struct decoded from a JSON object: `fields` is required, `comment` is
/// optional, a later entry for a key replaces an earlier one.
pub open spec fn struct_of(j: Json) -> Result<StructView, DecodeErrorView> {
    match j {
        Json::Object(es) => match struct_scan(StructProgress { fields: None, comment: None }, es@) {
            Err(e) => Err(e),
            Ok(p) => match p.fields {
                None => Err(DecodeErrorView::MissingField("fields"@)),
                Some(x) => Ok(StructView { fields: x, comment: p.comment }),
            },
        },
        _ => Err(DecodeErrorView::InvalidType),
    }
}

impl Struct {
    /// Decodes a struct from its JSON description.
    pub fn deserialize(j: &Json) -> (r: Result<Struct, DecodeError>)
        ensures
            match r {
                Ok(s) => struct_of(*j) == Ok::<StructView, DecodeErrorView>(s@),
                Err(e) => struct_of(*j) == Err::<StructView, DecodeErrorView>(e@),
            },
    {
        let es = match j {
            Json::Object(es) => es,
            _ => return Err(DecodeError::InvalidType),
        };
        let mut fields: Option<Vec<Field>> = None;
        let mut comment: Option<String> = None;
        let mut i: usize = 0;
        proof {
            assert(es@.subrange(0, es@.len() as int) =~= es@);
        }
        while i < es.len()
            invariant
                *j == Json::Object(*es),
                i <= es@.len(),
                struct_scan(StructProgress { fields: None, comment: None }, es@) == struct_scan(
                    StructProgress { fields: opt_fields_view(fields), comment: opt_view(comment) },
                    es@.subrange(i as int, es@.len() as int),
                ),
            decreases es@.len() - i,
        {
            let e = &es[i];
            proof {
                let rest = es@.subrange(i as int, es@.len() as int);
                assert(rest[0] == es@[i as int]);
                assert(rest.drop_first() =~= es@.subrange(i + 1, es@.len() as int));
            }
            let k = &e.0;
            if str_eq(k.as_str(), "fields") {
                match decode_fields(&e.1) {
                    Ok(x) => fields = Some(x),
                    Err(err) => return Err(err),
                }
            } else if str_eq(k.as_str(), "comment") {
                match decode_opt_string(&e.1) {
                    Ok(x) => comment = x,
                    Err(err) => return Err(err),
                }
            } else {
                return Err(DecodeError::UnknownField(k.clone()));
            }
            i = i + 1;
        }
        proof {
            assert(es@.subrange(es@.len() as int, es@.len() as int) =~= Seq::<(String, Json)>::empty());
        }
        match fields {
            None => Err(DecodeError::MissingField("fields".to_owned())),
            Some(fields) => Ok(Struct { fields, comment }),
        }
    }
}

/// One variant of a native enum: its name and its doc comment.
#[derive(Debug)]
pub struct Variant {
    pub name: Option<String>,
    pub comment: Option<String>,
}

pub struct VariantView {
    pub name: Option<Seq<char>>,
    pub comment: Option<Seq<char>>,
}

impl View for Variant {
    type V = VariantView;

    open spec fn view(&self) -> VariantView {
        VariantView { name: opt_view(self.name), comment: opt_view(self.comment) }
    }
}

pub open spec fn variant_step(f: VariantView, k: Seq<char>, v: Json) -> Result<VariantView, DecodeErrorView> {
    if k == "name"@ || k == "comment"@ {
        match opt_string_of(v) {
            Err(e) => Err(e),
            Ok(x) => if k == "name"@ {
                Ok(VariantView { name: x, ..f })
            } else {
                Ok(VariantView { comment: x, ..f })
            },
        }
    } else {
        Err(DecodeErrorView::UnknownField(k))
    }
}

pub open spec fn variant_scan(f: VariantView, es: Seq<(String, Json)>) -> Result<VariantView, DecodeErrorView>
    decreases es.len(),
{
    if es.len() == 0 {
        Ok(f)
    } else {
        match variant_step(f, es[0].0@, es[0].1) {
            Err(e) => Err(e),
            Ok(g) => variant_scan(g, es.drop_first()),
        }
    }
}

/// A variant decoded from a JSON object; every key is optional.
pub open spec fn variant_of(j: Json) -> Result<VariantView, DecodeErrorView> {
    match j {
        Json::Object(es) => variant_scan(VariantView { name: None, comment: None }, es@),
        _ => Err(DecodeErrorView::InvalidType),
    }
}

impl Variant {
    /// Decodes a variant from its JSON description.
    pub fn deserialize(j: &Json) -> (r: Result<Variant, DecodeError>)
        ensures
            match r {
                Ok(f) => variant_of(*j) == Ok::<VariantView, DecodeErrorView>(f@),
                Err(e) => variant_of(*j) == Err::<VariantView, DecodeErrorView>(e@),
            },
    {
        let es = match j {
            Json::Object(es) => es,
            _ => return Err(DecodeError::InvalidType),
        };
        let mut f = Variant { name: None, comment: None };
        let mut i: usize = 0;
        proof {
            assert(es@.subrange(0, es@.len() as int) =~= es@);
        }
        while i < es.len()
            invariant
                *j == Json::Object(*es),
                i <= es@.len(),
                variant_of(*j) == variant_scan(f@, es@.subrange(i as int, es@.len() as int)),
            decreases es@.len() - i,
        {
            let e = &es[i];
            proof {
                let rest = es@.subrange(i as int, es@.len() as int);
                assert(rest[0] == es@[i as int]);
                assert(rest.drop_first() =~= es@.subrange(i + 1, es@.len() as int));
            }
            let k = &e.0;
            let is_name = str_eq(k.as_str(), "name");
            let is_comment = str_eq(k.as_str(), "comment");
            if !(is_name || is_comment) {
                return Err(DecodeError::UnknownField(k.clone()));
            }
            let x = match decode_opt_string(&e.1) {
                Ok(x) => x,
                Err(err) => return Err(err),
            };
            if is_name {
                f.name = x;
            } else {
                f.comment = x;
            }
            i = i + 1;
        }
        proof {
            assert(es@.subrange(es@.len() as int, es@.len() as int) =~= Seq::<(String, Json)>::empty());
        }
        Ok(f)
    }
}

/// A variant decoded from each element of a JSON array, in order; the first
/// element that is refused decides the error.
pub open spec fn variants_scan(acc: Seq<VariantView>, items: Seq<Json>) -> Result<Seq<VariantView>, DecodeErrorView>
    decreases items.len(),
{
    if items.len() == 0 {
        Ok(acc)
    } else {
        match variant_of(items[0]) {
            Err(e) => Err(e),
            Ok(f) => variants_scan(acc.push(f), items.drop_first()),
        }
    }
}

pub open spec fn variants_of(j: Json) -> Result<Seq<VariantView>, DecodeErrorView> {
    match j {
        Json::Array(items) => variants_scan(Seq::empty(), items@),
        _ => Err(DecodeErrorView::InvalidType),
    }
}

pub open spec fn variants_view(v: Seq<Variant>) -> Seq<VariantView> {
    v.map_values(|f: Variant| f@)
}

/// Decodes a JSON array of variant descriptions.
pub fn decode_variants(j: &Json) -> (r: Result<Vec<Variant>, DecodeError>)
    ensures
        match r {
            Ok(v) => variants_of(*j) == Ok::<Seq<VariantView>, DecodeErrorView>(variants_view(v@)),
            Err(e) => variants_of(*j) == Err::<Seq<VariantView>, DecodeErrorView>(e@),
        },
{
    let items = match j {
        Json::Array(items) => items,
        _ => return Err(DecodeError::InvalidType),
    };
    let mut out: Vec<Variant> = Vec::new();
    let mut i: usize = 0;
    proof {
        assert(items@.subrange(0, items@.len() as int) =~= items@);
        assert(variants_view(out@) =~= Seq::<VariantView>::empty());
    }
    while i < items.len()
        invariant
            *j == Json::Array(*items),
            i <= items@.len(),
            variants_of(*j) == variants_scan(variants_view(out@), items@.subrange(i as int, items@.len() as int)),
        decreases items@.len() - i,
    {
        proof {
            let rest = items@.subrange(i as int, items@.len() as int);
            assert(rest[0] == items@[i as int]);
            assert(rest.drop_first() =~= items@.subrange(i + 1, items@.len() as int));
        }
        match Variant::deserialize(&items[i]) {
            Ok(f) => {
                let ghost before = out@;
                out.push(f);
                proof {
                    assert(variants_view(out@) =~= variants_view(before).push(f@));
                }
            },
            Err(err) => return Err(err),
        }
        i = i + 1;
    }
    proof {
        assert(items@.subrange(items@.len() as int, items@.len() as int) =~= Seq::<Json>::empty());
    }
    Ok(out)
}

pub open spec fn opt_variants_view(o: Option<Vec<Variant>>) -> Option<Seq<VariantView>> {
    match o {
        Some(v) => Some(variants_view(v@)),
        None => None,
    }
}

/// A native enum: its variants and its doc comment.
#[derive(Debug)]
pub struct Enum {
    pub values: Vec<Variant>,
    pub comment: Option<String>,
}

pub struct EnumView {
    pub values: Seq<VariantView>,
    pub comment: Option<Seq<char>>,
}

impl View for Enum {
    type V = EnumView;

    open spec fn view(&self) -> EnumView {
        EnumView { values: variants_view(self.values@), comment: opt_view(self.comment) }
    }
}

/// An enum being decoded: what the entries read so far have given.
pub struct EnumProgress {
    pub values: Option<Seq<VariantView>>,
    pub comment: Option<Seq<char>>,
}

pub open spec fn enum_step(p: EnumProgress, k: Seq<char>, v: Json) -> Result<EnumProgress, DecodeErrorView> {
    if k == "values"@ {
        match variants_of(v) {
            Err(e) => Err(e),
            Ok(x) => Ok(EnumProgress { values: Some(x), ..p }),
        }
    } else if k == "comment"@ {
        match opt_string_of(v) {
            Err(e) => Err(e),
            Ok(x) => Ok(EnumProgress { comment: x, ..p }),
        }
    } else {
        Err(DecodeErrorView::UnknownField(k))
    }
}

pub open spec fn enum_scan(p: EnumProgress, es: Seq<(String, Json)>) -> Result<EnumProgress, DecodeErrorView>
    decreases es.len(),
{
    if es.len() == 0 {
        Ok(p)
    } else {
        match enum_step(p, es[0].0@, es[0].1) {
            Err(e) => Err(e),
            Ok(q) => enum_scan(q, es.drop_first()),
        }
    }
}

/// An enum decoded from a JSON object: `values` is required, `comment` is
/// optional, a later entry for a key replaces an earlier one.
pub open spec fn enum_of(j: Json) -> Result<EnumView, DecodeErrorView> {
    match j {
        Json::Object(es) => match enum_scan(EnumProgress { values: None, comment: None }, es@) {
            Err(e) => Err(e),
            Ok(p) => match p.values {
                None => Err(DecodeErrorView::MissingField("values"@)),
                Some(x) => Ok(EnumView { values: x, comment: p.comment }),
            },
        },
        _ => Err(DecodeErrorView::InvalidType),
    }
}

impl Enum {
    /// Decodes an enum from its JSON description.
    pub fn deserialize(j: &Json) -> (r: Result<Enum, DecodeError>)
        ensures
            match r {
                Ok(s) => enum_of(*j) == Ok::<EnumView, DecodeErrorView>(s@),
                Err(e) => enum_of(*j) == Err::<EnumView, DecodeErrorView>(e@),
            },
    {
        let es = match j {
            Json::Object(es) => es,
            _ => return Err(DecodeError::InvalidType),
        };
        let mut values: Option<Vec<Variant>> = None;
        let mut comment: Option<String> = None;
        let mut i: usize = 0;
        proof {
            assert(es@.subrange(0, es@.len() as int) =~= es@);
        }
        while i < es.len()
            invariant
                *j == Json::Object(*es),
                i <= es@.len(),
                enum_scan(EnumProgress { values: None, comment: None }, es@) == enum_scan(
                    EnumProgress { values: opt_variants_view(values), comment: opt_view(comment) },
                    es@.subrange(i as int, es@.len() as int),
                ),
            decreases es@.len() - i,
        {
            let e = &es[i];
            proof {
                let rest = es@.subrange(i as int, es@.len() as int);
                assert(rest[0] == es@[i as int]);
                assert(rest.drop_first() =~= es@.subrange(i + 1, es@.len() as int));
            }
            let k = &e.0;
            if str_eq(k.as_str(), "values") {
                match decode_variants(&e.1) {
                    Ok(x) => values = Some(x),
                    Err(err) => return Err(err),
                }
            } else if str_eq(k.as_str(), "comment") {
                match decode_opt_string(&e.1) {
                    Ok(x) => comment = x,
                    Err(err) => return Err(err),
                }
            } else {
                return Err(DecodeError::UnknownField(k.clone()));
            }
            i = i + 1;
        }
        proof {
            assert(es@.subrange(es@.len() as int, es@.len() as int) =~= Seq::<(String, Json)>::empty());
        }
        match values {
            None => Err(DecodeError::MissingField("values".to_owned())),
            Some(values) => Ok(Enum { values, comment }),
        }
    }
}

/// Struct definitions grouped by the native source file that declares them,
/// each group listing its structs by name.
pub type StructDefs = Vec<(String, Vec<(String, Struct)>)>;

pub open spec fn struct_group_view(g: Seq<(String, Struct)>) -> Seq<(Seq<char>, StructView)> {
    g.map_values(|p: (String, Struct)| (p.0@, p.1@))
}

pub open spec fn struct_defs_view(d: Seq<(String, Vec<(String, Struct)>)>) -> Seq<(Seq<char>, Seq<(Seq<char>, StructView)>)> {
    d.map_values(|p: (String, Vec<(String, Struct)>)| (p.0@, struct_group_view(p.1@)))
}

/// `acc` followed by a named struct for each object entry, in order; the first
/// entry that is refused decides the error.
pub open spec fn struct_group_scan(acc: Seq<(Seq<char>, StructView)>, es: Seq<(String, Json)>) -> Result<Seq<(Seq<char>, StructView)>, DecodeErrorView>
    decreases es.len(),
{
    if es.len() == 0 {
        Ok(acc)
    } else {
        match struct_of(es[0].1) {
            Err(e) => Err(e),
            Ok(s) => struct_group_scan(acc.push((es[0].0@, s)), es.drop_first()),
        }
    }
}

/// A group of structs decoded from a JSON object keyed by struct name.
pub open spec fn struct_group_of(j: Json) -> Result<Seq<(Seq<char>, StructView)>, DecodeErrorView> {
    match j {
        Json::Object(es) => struct_group_scan(Seq::empty(), es@),
        _ => Err(DecodeErrorView::InvalidType),
    }
}

/// `acc` followed by a named group for each object entry, in order.
pub open spec fn struct_defs_scan(acc: Seq<(Seq<char>, Seq<(Seq<char>, StructView)>)>, es: Seq<(String, Json)>) -> Result<Seq<(Seq<char>, Seq<(Seq<char>, StructView)>)>, DecodeErrorView>
    decreases es.len(),
{
    if es.len() == 0 {
        Ok(acc)
    } else {
        match struct_group_of(es[0].1) {
            Err(e) => Err(e),
            Ok(g) => struct_defs_scan(acc.push((es[0].0@, g)), es.drop_first()),
        }
    }
}

/// Struct definitions decoded from a JSON object keyed by source file, whose
/// values are objects keyed by struct name.
pub open spec fn struct_defs_of(j: Json) -> Result<Seq<(Seq<char>, Seq<(Seq<char>, StructView)>)>, DecodeErrorView> {
    match j {
        Json::Object(es) => struct_defs_scan(Seq::empty(), es@),
        _ => Err(DecodeErrorView::InvalidType),
    }
}

/// Decodes a JSON object of structs keyed by name, keeping the entries' order.
pub fn decode_struct_group(j: &Json) -> (r: Result<Vec<(String, Struct)>, DecodeError>)
    ensures
        match r {
            Ok(g) => struct_group_of(*j) == Ok::<Seq<(Seq<char>, StructView)>, DecodeErrorView>(struct_group_view(g@)),
            Err(e) => struct_group_of(*j) == Err::<Seq<(Seq<char>, StructView)>, DecodeErrorView>(e@),
        },
{
    let es = match j {
        Json::Object(es) => es,
        _ => return Err(DecodeError::InvalidType),
    };
    let mut out: Vec<(String, Struct)> = Vec::new();
    let mut i: usize = 0;
    proof {
        assert(es@.subrange(0, es@.len() as int) =~= es@);
        assert(struct_group_view(out@) =~= Seq::<(Seq<char>, StructView)>::empty());
    }
    while i < es.len()
        invariant
            *j == Json::Object(*es),
            i <= es@.len(),
            struct_group_of(*j) == struct_group_scan(struct_group_view(out@), es@.subrange(i as int, es@.len() as int)),
        decreases es@.len() - i,
    {
        proof {
            let rest = es@.subrange(i as int, es@.len() as int);
            assert(rest[0] == es@[i as int]);
            assert(rest.drop_first() =~= es@.subrange(i + 1, es@.len() as int));
        }
        let e = &es[i];
        match Struct::deserialize(&e.1) {
            Ok(s) => {
                let ghost before = out@;
                let name = e.0.clone();
                out.push((name, s));
                proof {
                    assert(struct_group_view(out@) =~= struct_group_view(before).push((e.0@, s@)));
                }
            },
            Err(err) => return Err(err),
        }
        i = i + 1;
    }
    proof {
        assert(es@.subrange(es@.len() as int, es@.len() as int) =~= Seq::<(String, Json)>::empty());
    }
    Ok(out)
}

/// Decodes the struct definitions: a JSON object keyed by source file whose
/// values are objects of structs keyed by name, keeping the entries' order.
pub fn decode_struct_defs(j: &Json) -> (r: Result<StructDefs, DecodeError>)
    ensures
        match r {
            Ok(d) => struct_defs_of(*j) == Ok::<Seq<(Seq<char>, Seq<(Seq<char>, StructView)>)>, DecodeErrorView>(struct_defs_view(d@)),
            Err(e) => struct_defs_of(*j) == Err::<Seq<(Seq<char>, Seq<(Seq<char>, StructView)>)>, DecodeErrorView>(e@),
        },
{
    let es = match j {
        Json::Object(es) => es,
        _ => return Err(DecodeError::InvalidType),
    };
    let mut out: StructDefs = Vec::new();
    let mut i: usize = 0;
    proof {
        assert(es@.subrange(0, es@.len() as int) =~= es@);
        assert(struct_defs_view(out@) =~= Seq::<(Seq<char>, Seq<(Seq<char>, StructView)>)>::empty());
    }
    while i < es.len()
        invariant
            *j == Json::Object(*es),
            i <= es@.len(),
            struct_defs_of(*j) == struct_defs_scan(struct_defs_view(out@), es@.subrange(i as int, es@.len() as int)),
        decreases es@.len() - i,
    {
        proof {
            let rest = es@.subrange(i as int, es@.len() as int);
            assert(rest[0] == es@[i as int]);
            assert(rest.drop_first() =~= es@.subrange(i + 1, es@.len() as int));
        }
        let e = &es[i];
        match decode_struct_group(&e.1) {
            Ok(g) => {
                let ghost before = out@;
                let name = e.0.clone();
                out.push((name, g));
                proof {
                    assert(struct_defs_view(out@) =~= struct_defs_view(before).push((e.0@, struct_group_view(g@))));
                }
            },
            Err(err) => return Err(err),
        }
        i = i + 1;
    }
    proof {
        assert(es@.subrange(es@.len() as int, es@.len() as int) =~= Seq::<(String, Json)>::empty());
    }
    Ok(out)
}

/// Enum definitions grouped by the native source file that declares them,
/// each group listing its enums by name.
pub type EnumDefs = Vec<(String, Vec<(String, Enum)>)>;

pub open spec fn enum_group_view(g: Seq<(String, Enum)>) -> Seq<(Seq<char>, EnumView)> {
    g.map_values(|p: (String, Enum)| (p.0@, p.1@))
}

pub open spec fn enum_defs_view(d: Seq<(String, Vec<(String, Enum)>)>) -> Seq<(Seq<char>, Seq<(Seq<char>, EnumView)>)> {
    d.map_values(|p: (String, Vec<(String, Enum)>)| (p.0@, enum_group_view(p.1@)))
}

/// `acc` followed by a named enum for each object entry, in order; the first
/// entry that is refused decides the error.
pub open spec fn enum_group_scan(acc: Seq<(Seq<char>, EnumView)>, es: Seq<(String, Json)>) -> Result<Seq<(Seq<char>, EnumView)>, DecodeErrorView>
    decreases es.len(),
{
    if es.len() == 0 {
        Ok(acc)
    } else {
        match enum_of(es[0].1) {
            Err(e) => Err(e),
            Ok(s) => enum_group_scan(acc.push((es[0].0@, s)), es.drop_first()),
        }
    }
}

/// A group of enums decoded from a JSON object keyed by enum name.
pub open spec fn enum_group_of(j: Json) -> Result<Seq<(Seq<char>, EnumView)>, DecodeErrorView> {
    match j {
        Json::Object(es) => enum_group_scan(Seq::empty(), es@),
        _ => Err(DecodeErrorView::InvalidType),
    }
}

/// `acc` followed by a named group for each object entry, in order.
pub open spec fn enum_defs_scan(acc: Seq<(Seq<char>, Seq<(Seq<char>, EnumView)>)>, es: Seq<(String, Json)>) -> Result<Seq<(Seq<char>, Seq<(Seq<char>, EnumView)>)>, DecodeErrorView>
    decreases es.len(),
{
    if es.len() == 0 {
        Ok(acc)
    } else {
        match enum_group_of(es[0].1) {
            Err(e) => Err(e),
            Ok(g) => enum_defs_scan(acc.push((es[0].0@, g)), es.drop_first()),
        }
    }
}

/// Enum definitions decoded from a JSON object keyed by source file, whose
/// values are objects keyed by enum name.
pub open spec fn enum_defs_of(j: Json) -> Result<Seq<(Seq<char>, Seq<(Seq<char>, EnumView)>)>, DecodeErrorView> {
    match j {
        Json::Object(es) => enum_defs_scan(Seq::empty(), es@),
        _ => Err(DecodeErrorView::InvalidType),
    }
}

/// Decodes a JSON object of enums keyed by name, keeping the entries' order.
pub fn decode_enum_group(j: &Json) -> (r: Result<Vec<(String, Enum)>, DecodeError>)
    ensures
        match r {
            Ok(g) => enum_group_of(*j) == Ok::<Seq<(Seq<char>, EnumView)>, DecodeErrorView>(enum_group_view(g@)),
            Err(e) => enum_group_of(*j) == Err::<Seq<(Seq<char>, EnumView)>, DecodeErrorView>(e@),
        },
{
    let es = match j {
        Json::Object(es) => es,
        _ => return Err(DecodeError::InvalidType),
    };
    let mut out: Vec<(String, Enum)> = Vec::new();
    let mut i: usize = 0;
    proof {
        assert(es@.subrange(0, es@.len() as int) =~= es@);
        assert(enum_group_view(out@) =~= Seq::<(Seq<char>, EnumView)>::empty());
    }
    while i < es.len()
        invariant
            *j == Json::Object(*es),
            i <= es@.len(),
            enum_group_of(*j) == enum_group_scan(enum_group_view(out@), es@.subrange(i as int, es@.len() as int)),
        decreases es@.len() - i,
    {
        proof {
            let rest = es@.subrange(i as int, es@.len() as int);
            assert(rest[0] == es@[i as int]);
            assert(rest.drop_first() =~= es@.subrange(i + 1, es@.len() as int));
        }
        let e = &es[i];
        match Enum::deserialize(&e.1) {
            Ok(s) => {
                let ghost before = out@;
                let name = e.0.clone();
                out.push((name, s));
                proof {
                    assert(enum_group_view(out@) =~= enum_group_view(before).push((e.0@, s@)));
                }
            },
            Err(err) => return Err(err),
        }
        i = i + 1;
    }
    proof {
        assert(es@.subrange(es@.len() as int, es@.len() as int) =~= Seq::<(String, Json)>::empty());
    }
    Ok(out)
}

/// Decodes the enum definitions: a JSON object keyed by source file whose
/// values are objects of enums keyed by name, keeping the entries' order.
pub fn decode_enum_defs(j: &Json) -> (r: Result<EnumDefs, DecodeError>)
    ensures
        match r {
            Ok(d) => enum_defs_of(*j) == Ok::<Seq<(Seq<char>, Seq<(Seq<char>, EnumView)>)>, DecodeErrorView>(enum_defs_view(d@)),
            Err(e) => enum_defs_of(*j) == Err::<Seq<(Seq<char>, Seq<(Seq<char>, EnumView)>)>, DecodeErrorView>(e@),
        },
{
    let es = match j {
        Json::Object(es) => es,
        _ => return Err(DecodeError::InvalidType),
    };
    let mut out: EnumDefs = Vec::new();
    let mut i: usize = 0;
    proof {
        assert(es@.subrange(0, es@.len() as int) =~= es@);
        assert(enum_defs_view(out@) =~= Seq::<(Seq<char>, Seq<(Seq<char>, EnumView)>)>::empty());
    }
    while i < es.len()
        invariant
            *j == Json::Object(*es),
            i <= es@.len(),
            enum_defs_of(*j) == enum_defs_scan(enum_defs_view(out@), es@.subrange(i as int, es@.len() as int)),
        decreases es@.len() - i,
    {
        proof {
            let rest = es@.subrange(i as int, es@.len() as int);
            assert(rest[0] == es@[i as int]);
            assert(rest.drop_first() =~= es@.subrange(i + 1, es@.len() as int));
        }
        let e = &es[i];
        match decode_enum_group(&e.1) {
            Ok(g) => {
                let ghost before = out@;
                let name = e.0.clone();
                out.push((name, g));
                proof {
                    assert(enum_defs_view(out@) =~= enum_defs_view(before).push((e.0@, enum_group_view(g@))));
                }
            },
            Err(err) => return Err(err),
        }
        i = i + 1;
    }
    proof {
        assert(es@.subrange(es@.len() as int, es@.len() as int) =~= Seq::<(String, Json)>::empty());
    }
    Ok(out)
}

} // verus!
