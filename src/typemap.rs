use vstd::prelude::*;

use crate::text::str_eq;

verus! {
/// The Rust type that a field of the given C type is given in the generated
/// node enum, or `None` where the C type is not supported.
pub open spec fn rust_type_of(c: Seq<char>) -> Option<Seq<char>> {
    if c == "CmdType"@ {
        Some("CmdType"@)
    } else if c == "QuerySource"@ {
        Some("QuerySource"@)
    } else if c == "uint32"@ {
        Some("u32"@)
    } else if c == "bool"@ {
        Some("bool"@)
    } else if c == "Node*"@ {
        Some("Box<Node>"@)
    } else if c == "int"@ {
        Some("i32"@)
    } else if c == "List*"@ {
        Some("Vec<Node>"@)
    } else if c == "FromExpr*"@ {
        Some("FromExpr"@)
    } else if c == "OnConflictExpr*"@ {
        Some("OnConflictExpr"@)
    } else if c == "CreateStmt"@ {
        Some("Box<Node>"@)
    } else if c == "Oid"@ {
        Some("Oid"@)
    } else if c == "int32"@ {
        Some("i32"@)
    } else if c == "RangeVar*"@ {
        Some("RangeVar"@)
    } else if c == "char*"@ {
        Some("String"@)
    } else if c == "TypeName*"@ {
        Some("TypeName"@)
    } else if c == "GrantTargetType"@ {
        Some("GrantTargetType"@)
    } else if c == "GrantObjectType"@ {
        Some("GrantObjectType"@)
    } else if c == "WindowDef*"@ {
        Some("WindowDef"@)
    } else if c == "ObjectType"@ {
        Some("ObjectType"@)
    } else if c == "WithClause*"@ {
        Some("WithClause"@)
    } else if c == "RoleSpecType"@ {
        Some("RoleSpecType"@)
    } else if c == "XmlOptionType"@ {
        Some("XmlOptionType"@)
    } else if c == "DropBehavior"@ {
        Some("DropBehavior"@)
    } else if c == "OnCommitAction"@ {
        Some("OnCommitAction"@)
    } else if c == "Expr*"@ {
        Some("Expr"@)
    } else if c == "Alias*"@ {
        Some("Alias"@)
    } else if c == "DefElemAction"@ {
        Some("DefElemAction"@)
    } else if c == "int16"@ {
        Some("i16"@)
    } else if c == "char"@ {
        Some("u8"@)
    } else if c == "RoleStmtType"@ {
        Some("RoleStmtType"@)
    } else if c == "FunctionParameterMode"@ {
        Some("FunctionParameterMode"@)
    } else if c == "Index"@ {
        Some("Index"@)
    } else if c == "A_Expr_Kind"@ {
        Some("A_Expr_Kind"@)
    } else if c == "SortByDir"@ {
        Some("SortByDir"@)
    } else if c == "VariableSetStmt*"@ {
        Some("VariableSetStmt"@)
    } else if c == "IntoClause*"@ {
        Some("IntoClause"@)
    } else if c == "AlterTSConfigType"@ {
        Some("AlterTSConfigType"@)
    } else if c == "SortByNulls"@ {
        Some("SortByNulls"@)
    } else if c == "DiscardMode"@ {
        Some("DiscardMode"@)
    } else if c == "GrantStmt*"@ {
        Some("GrantStmt"@)
    } else if c == "LockClauseStrength"@ {
        Some("LockClauseStrength"@)
    } else if c == "RTEKind"@ {
        Some("RTEKind"@)
    } else if c == "SetOperation"@ {
        Some("SetOperation"@)
    } else if c == "LockWaitPolicy"@ {
        Some("LockWaitPolicy"@)
    } else if c == "VariableSetKind"@ {
        Some("VariableSetKind"@)
    } else if c == "Value"@ {
        Some("Value"@)
    } else if c == "OnConflictClause*"@ {
        Some("OnConflictClause"@)
    } else if c == "CollateClause*"@ {
        Some("CollateClause"@)
    } else if c == "SelectStmt*"@ {
        Some("Box<Node>"@)
    } else {
        None
    }
}

/// Looks up the Rust type for a C type of the native library's structs.
///
/// The table is closed: a C type outside it gives `None`, and code generation
/// treats that as a hard failure.
#[verifier::rlimit(50)]
pub fn c_to_rust_type(c_type: &str) -> (r: Option<&'static str>)
    ensures
        match r {
            Some(t) => rust_type_of(c_type@) == Some(t@),
            None => rust_type_of(c_type@) is None,
        },
{
    if str_eq(c_type, "CmdType") {
        return Some("CmdType");
    }
    if str_eq(c_type, "QuerySource") {
        return Some("QuerySource");
    }
    if str_eq(c_type, "uint32") {
        return Some("u32");
    }
    if str_eq(c_type, "bool") {
        return Some("bool");
    }
    if str_eq(c_type, "Node*") {
        return Some("Box<Node>");
    }
    if str_eq(c_type, "int") {
        return Some("i32");
    }
    if str_eq(c_type, "List*") {
        return Some("Vec<Node>");
    }
    if str_eq(c_type, "FromExpr*") {
        return Some("FromExpr");
    }
    if str_eq(c_type, "OnConflictExpr*") {
        return Some("OnConflictExpr");
    }
    if str_eq(c_type, "CreateStmt") {
        return Some("Box<Node>");
    }
    if str_eq(c_type, "Oid") {
        return Some("Oid");
    }
    if str_eq(c_type, "int32") {
        return Some("i32");
    }
    if str_eq(c_type, "RangeVar*") {
        return Some("RangeVar");
    }
    if str_eq(c_type, "char*") {
        return Some("String");
    }
    if str_eq(c_type, "TypeName*") {
        return Some("TypeName");
    }
    if str_eq(c_type, "GrantTargetType") {
        return Some("GrantTargetType");
    }
    if str_eq(c_type, "GrantObjectType") {
        return Some("GrantObjectType");
    }
    if str_eq(c_type, "WindowDef*") {
        return Some("WindowDef");
    }
    if str_eq(c_type, "ObjectType") {
        return Some("ObjectType");
    }
    if str_eq(c_type, "WithClause*") {
        return Some("WithClause");
    }
    if str_eq(c_type, "RoleSpecType") {
        return Some("RoleSpecType");
    }
    if str_eq(c_type, "XmlOptionType") {
        return Some("XmlOptionType");
    }
    if str_eq(c_type, "DropBehavior") {
        return Some("DropBehavior");
    }
    if str_eq(c_type, "OnCommitAction") {
        return Some("OnCommitAction");
    }
    if str_eq(c_type, "Expr*") {
        return Some("Expr");
    }
    if str_eq(c_type, "Alias*") {
        return Some("Alias");
    }
    if str_eq(c_type, "DefElemAction") {
        return Some("DefElemAction");
    }
    if str_eq(c_type, "int16") {
        return Some("i16");
    }
    if str_eq(c_type, "char") {
        return Some("u8");
    }
    if str_eq(c_type, "RoleStmtType") {
        return Some("RoleStmtType");
    }
    if str_eq(c_type, "FunctionParameterMode") {
        return Some("FunctionParameterMode");
    }
    if str_eq(c_type, "Index") {
        return Some("Index");
    }
    if str_eq(c_type, "A_Expr_Kind") {
        return Some("A_Expr_Kind");
    }
    if str_eq(c_type, "SortByDir") {
        return Some("SortByDir");
    }
    if str_eq(c_type, "VariableSetStmt*") {
        return Some("VariableSetStmt");
    }
    if str_eq(c_type, "IntoClause*") {
        return Some("IntoClause");
    }
    if str_eq(c_type, "AlterTSConfigType") {
        return Some("AlterTSConfigType");
    }
    if str_eq(c_type, "SortByNulls") {
        return Some("SortByNulls");
    }
    if str_eq(c_type, "DiscardMode") {
        return Some("DiscardMode");
    }
    if str_eq(c_type, "GrantStmt*") {
        return Some("GrantStmt");
    }
    if str_eq(c_type, "LockClauseStrength") {
        return Some("LockClauseStrength");
    }
    if str_eq(c_type, "RTEKind") {
        return Some("RTEKind");
    }
    if str_eq(c_type, "SetOperation") {
        return Some("SetOperation");
    }
    if str_eq(c_type, "LockWaitPolicy") {
        return Some("LockWaitPolicy");
    }
    if str_eq(c_type, "VariableSetKind") {
        return Some("VariableSetKind");
    }
    if str_eq(c_type, "Value") {
        return Some("Value");
    }
    if str_eq(c_type, "OnConflictClause*") {
        return Some("OnConflictClause");
    }
    if str_eq(c_type, "CollateClause*") {
        return Some("CollateClause");
    }
    if str_eq(c_type, "SelectStmt*") {
        return Some("Box<Node>");
    }
    None
}

} // verus!
