use vstd::prelude::*;
use vstd::string::*;

use crate::defs::{Field, FieldView, Struct, StructDefs};
use crate::text::str_eq;
use crate::typemap::{c_to_rust_type, rust_type_of};

verus! {

/// Why the node enum could not be generated.
#[derive(Debug)]
pub enum GenError {
    /// The struct definitions hold no group of this name.
    MissingGroup(String),
    /// A field has a C type outside the type table.
    UnknownType(String),
}

pub enum GenErrorView {
    MissingGroup(Seq<char>),
    UnknownType(Seq<char>),
}

impl View for GenError {
    type V = GenErrorView;

    open spec fn view(&self) -> GenErrorView {
        match self {
            GenError::MissingGroup(g) => GenErrorView::MissingGroup(g@),
            GenError::UnknownType(t) => GenErrorView::UnknownType(t@),
        }
    }
}

/// The line that declares a field in its case of the node enum. A field
/// without a name or a C type, and the tag field `type`, give no line.
pub open spec fn field_line(f: FieldView) -> Result<Seq<char>, GenErrorView> {
    match (f.name, f.c_type) {
        (Some(n), Some(c)) => if n == "type"@ {
            Ok(Seq::empty())
        } else {
            match rust_type_of(c) {
                None => Err(GenErrorView::UnknownType(c)),
                Some(t) => Ok("        "@ + n + ": "@ + t + ",\n"@),
            }
        },
        _ => Ok(Seq::empty()),
    }
}

/// `acc` followed by the lines of the fields in order; the first field of an
/// unknown C type is the error.
pub open spec fn fields_text(acc: Seq<char>, fs: Seq<FieldView>) -> Result<Seq<char>, GenErrorView>
    decreases fs.len(),
{
    if fs.len() == 0 {
        Ok(acc)
    } else {
        match field_line(fs[0]) {
            Err(e) => Err(e),
            Ok(l) => fields_text(acc + l, fs.drop_first()),
        }
    }
}

/// `acc` followed by one case of the node enum for each struct, in order.
pub open spec fn cases_text(acc: Seq<char>, ss: Seq<(String, Struct)>) -> Result<Seq<char>, GenErrorView>
    decreases ss.len(),
{
    if ss.len() == 0 {
        Ok(acc)
    } else {
        match fields_text(acc + "    "@ + ss[0].0@ + " {\n"@, ss[0].1@.fields) {
            Err(e) => Err(e),
            Ok(t) => cases_text(t + "    },\n"@, ss.drop_first()),
        }
    }
}

/// The declaration of the node enum for a group of structs.
pub open spec fn node_text(ss: Seq<(String, Struct)>) -> Result<Seq<char>, GenErrorView> {
    match cases_text("pub enum Node {\n"@, ss) {
        Err(e) => Err(e),
        Ok(t) => Ok(t + "}\n"@),
    }
}

/// The structs of the first group of the given name.
pub open spec fn group_of(defs: Seq<(String, Vec<(String, Struct)>)>, name: Seq<char>) -> Option<
    Seq<(String, Struct)>,
>
    decreases defs.len(),
{
    if defs.len() == 0 {
        None
    } else if defs[0].0@ == name {
        Some(defs[0].1@)
    } else {
        group_of(defs.drop_first(), name)
    }
}

/// The node enum generated from the group of parse-node structs.
pub open spec fn node_decl(defs: Seq<(String, Vec<(String, Struct)>)>) -> Result<Seq<char>, GenErrorView> {
    match group_of(defs, "nodes/parsenodes"@) {
        None => Err(GenErrorView::MissingGroup("nodes/parsenodes"@)),
        Some(ss) => node_text(ss),
    }
}

pub open spec fn gen_view(r: Result<String, GenError>) -> Result<Seq<char>, GenErrorView> {
    match r {
        Ok(s) => Ok(s@),
        Err(e) => Err(e@),
    }
}

/// Appends the line of one field to `out`.
fn write_field(f: &Field, out: &mut String) -> (r: Result<(), GenError>)
    ensures
        match r {
            Ok(_) => field_line(f@) is Ok && final(out)@ == old(out)@ + field_line(f@)->Ok_0,
            Err(e) => field_line(f@) == Err::<Seq<char>, GenErrorView>(e@),
        },
{
    match (&f.name, &f.c_type) {
        (Some(n), Some(c)) => {
            if str_eq(n.as_str(), "type") {
                proof {
                    assert(old(out)@ + Seq::<char>::empty() =~= old(out)@);
                }
                return Ok(());
            }
            match c_to_rust_type(c.as_str()) {
                None => Err(GenError::UnknownType(c.clone())),
                Some(t) => {
                    out.append("        ");
                    out.append(n.as_str());
                    out.append(": ");
                    out.append(t);
                    out.append(",\n");
                    proof {
                        assert(final(out)@ =~= old(out)@ + ("        "@ + n@ + ": "@ + t@ + ",\n"@));
                    }
                    Ok(())
                },
            }
        },
        _ => {
            proof {
                assert(old(out)@ + Seq::<char>::empty() =~= old(out)@);
            }
            Ok(())
        },
    }
}

/// The position of the first group of the given name.
fn find_group(defs: &StructDefs, name: &str) -> (r: Option<usize>)
    ensures
        match r {
            None => group_of(defs@, name@) is None,
            Some(g) => g < defs@.len() && group_of(defs@, name@) == Some(defs@[g as int].1@),
        },
{
    let mut g: usize = 0;
    proof {
        assert(defs@.subrange(0, defs@.len() as int) =~= defs@);
    }
    while g < defs.len()
        invariant
            g <= defs@.len(),
            group_of(defs@, name@) == group_of(defs@.subrange(g as int, defs@.len() as int), name@),
        decreases defs@.len() - g,
    {
        proof {
            let rest = defs@.subrange(g as int, defs@.len() as int);
            assert(rest[0] == defs@[g as int]);
            assert(rest.drop_first() =~= defs@.subrange(g + 1, defs@.len() as int));
        }
        if str_eq(defs[g].0.as_str(), name) {
            return Some(g);
        }
        g = g + 1;
    }
    proof {
        assert(defs@.subrange(g as int, g as int) =~= Seq::<(String, Vec<(String, Struct)>)>::empty());
    }
    None
}

/// Generates the declaration of the node enum: one case for each struct of
/// the `nodes/parsenodes` group, in order, holding the struct's fields with
/// their mapped Rust types.
pub fn make_node(struct_defs: &StructDefs) -> (r: Result<String, GenError>)
    ensures
        gen_view(r) == node_decl(struct_defs@),
{
    let g = match find_group(struct_defs, "nodes/parsenodes") {
        None => return Err(GenError::MissingGroup("nodes/parsenodes".to_owned())),
        Some(g) => g,
    };
    let structs = &struct_defs[g].1;
    let mut out = "pub enum Node {\n".to_owned();
    let mut i: usize = 0;
    proof {
        assert(structs@.subrange(0, structs@.len() as int) =~= structs@);
    }
    while i < structs.len()
        invariant
            i <= structs@.len(),
            group_of(struct_defs@, "nodes/parsenodes"@) == Some(structs@),
            cases_text("pub enum Node {\n"@, structs@) == cases_text(
                out@,
                structs@.subrange(i as int, structs@.len() as int),
            ),
        decreases structs@.len() - i,
    {
        let ghost rest = structs@.subrange(i as int, structs@.len() as int);
        proof {
            assert(rest[0] == structs@[i as int]);
            assert(rest.drop_first() =~= structs@.subrange(i + 1, structs@.len() as int));
        }
        let entry = &structs[i];
        let ghost prev = out@;
        out.append("    ");
        out.append(entry.0.as_str());
        out.append(" {\n");
        let ghost head = out@;
        proof {
            assert(head =~= prev + "    "@ + structs@[i as int].0@ + " {\n"@);
        }
        let fields = &entry.1.fields;
        let mut k: usize = 0;
        proof {
            assert(fields@.map_values(|f: Field| f@).subrange(0, fields@.len() as int) =~= fields@.map_values(|f: Field| f@));
        }
        while k < fields.len()
            invariant
                k <= fields@.len(),
                i < structs@.len(),
                group_of(struct_defs@, "nodes/parsenodes"@) == Some(structs@),
                rest == structs@.subrange(i as int, structs@.len() as int),
                head == prev + "    "@ + structs@[i as int].0@ + " {\n"@,
                cases_text("pub enum Node {\n"@, structs@) == cases_text(prev, rest),
                fields_text(head, structs@[i as int].1@.fields) == fields_text(
                    out@,
                    fields@.map_values(|f: Field| f@).subrange(k as int, fields@.len() as int),
                ),
                structs@[i as int].1@.fields == fields@.map_values(|f: Field| f@),
            decreases fields@.len() - k,
        {
            proof {
                let fv = fields@.map_values(|f: Field| f@);
                let fr = fv.subrange(k as int, fields@.len() as int);
                assert(fr[0] == fields@[k as int]@);
                assert(fr.drop_first() =~= fv.subrange(k + 1, fields@.len() as int));
            }
            match write_field(&fields[k], &mut out) {
                Ok(_) => {},
                Err(e) => {
                    return Err(e);
                },
            }
            k = k + 1;
        }
        proof {
            assert(fields@.map_values(|f: Field| f@).subrange(fields@.len() as int, fields@.len() as int) =~= Seq::<FieldView>::empty());
        }
        out.append("    },\n");
        i = i + 1;
    }
    proof {
        assert(structs@.subrange(structs@.len() as int, structs@.len() as int) =~= Seq::<(String, Struct)>::empty());
    }
    out.append("}\n");
    Ok(out)
}

} // verus!
