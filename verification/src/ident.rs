//! Lexical validity of the identifiers the emitter writes.
//!
//! Every name that ends up in an emitted declaration — target type
//! names, member names, variant names — must be a lexically valid
//! identifier, or the downstream node constructors reject it.

use vstd::prelude::*;

verus! {

/// Whether `c` may begin an identifier: an ASCII letter or an
/// underscore.
pub open spec fn is_ident_start(c: char) -> bool {
    ||| c == '_'
    ||| 'a' as u32 <= c as u32 && c as u32 <= 'z' as u32
    ||| 'A' as u32 <= c as u32 && c as u32 <= 'Z' as u32
}

/// Whether `c` may continue an identifier: a start character or an
/// ASCII digit.
pub open spec fn is_ident_char(c: char) -> bool {
    ||| is_ident_start(c)
    ||| '0' as u32 <= c as u32 && c as u32 <= '9' as u32
}

/// A lexically valid identifier of the emitted code. A lone underscore
/// is not an identifier; keywords are admitted, since the node
/// constructors accept them wherever the emitter writes one ("Self").
pub open spec fn is_ident(s: Seq<char>) -> bool {
    &&& s.len() > 0
    &&& is_ident_start(s[0])
    &&& forall|i: int| 0 <= i < s.len() ==> is_ident_char(#[trigger] s[i])
    &&& !(s.len() == 1 && s[0] == '_')
}

/// Every fixed name the emitter writes — contract paths, member names,
/// parameter names and built-in type names — is a valid identifier.
pub proof fn lemma_fixed_names_are_idents()
    ensures
        is_ident("Event"@),
        is_ident("Error"@),
        is_ident("Request"@),
        is_ident("XidType"@),
        is_ident("Default"@),
        is_ident("From"@),
        is_ident("OPCODE"@),
        is_ident("u8"@),
        is_ident("Reply"@),
        is_ident("xid"@),
        is_ident("id"@),
        is_ident("from_xid"@),
        is_ident("XID"@),
        is_ident("Self"@),
        is_ident("default"@),
        is_ident("from"@),
        is_ident("base"@),
{
    reveal_strlit("Event");
    reveal_strlit("Error");
    reveal_strlit("Request");
    reveal_strlit("XidType");
    reveal_strlit("Default");
    reveal_strlit("From");
    reveal_strlit("OPCODE");
    reveal_strlit("u8");
    reveal_strlit("Reply");
    reveal_strlit("xid");
    reveal_strlit("id");
    reveal_strlit("from_xid");
    reveal_strlit("XID");
    reveal_strlit("Self");
    reveal_strlit("default");
    reveal_strlit("from");
    reveal_strlit("base");
}

} // verus!
