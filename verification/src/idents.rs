//! The names of the items that are generated for a type and an interface.

use vstd::prelude::*;
use vstd::string::StringExecFns;
use crate::model::{
    lemma_reserved_shape,
    spec_is_name,
    spec_name_char,
    spec_plain,
    spec_reserved,
};

verus! {

/// The name of the function-table type of an interface.
pub open spec fn spec_vtable_struct(itf: Seq<char>) -> Seq<char> {
    "__"@ + itf + "Vtbl"@
}

/// The name of the function-table instance of a type for an interface.
pub open spec fn spec_vtable_instance(ty: Seq<char>, itf: Seq<char>) -> Seq<char> {
    "__"@ + ty + "_"@ + itf + "Vtbl_INSTANCE"@
}

/// The name of the function that gives the offset of an interface's table
/// pointer inside the object of a type.
pub open spec fn spec_vtable_offset(ty: Seq<char>, itf: Seq<char>) -> Seq<char> {
    "__"@ + ty + "_"@ + itf + "Vtbl_offset"@
}

/// The name of the thunk of a type for a method of an interface.
pub open spec fn spec_method_impl(ty: Seq<char>, itf: Seq<char>, method: Seq<char>) -> Seq<char> {
    "__"@ + ty + "_"@ + itf + "_"@ + method
}

/// The name of the function-table type of an interface.
pub fn vtable_struct(itf: &str) -> (name: String)
    ensures
        name@ == spec_vtable_struct(itf@),
{
    let mut name = String::from_str("__");
    name.append(itf);
    name.append("Vtbl");
    name
}

/// The name of the function-table instance of a type for an interface.
pub fn vtable_instance(ty: &str, itf: &str) -> (name: String)
    ensures
        name@ == spec_vtable_instance(ty@, itf@),
{
    let mut name = String::from_str("__");
    name.append(ty);
    name.append("_");
    name.append(itf);
    name.append("Vtbl_INSTANCE");
    name
}

/// The name of the function that gives the offset of an interface's table
/// pointer inside the object of a type.
pub fn vtable_offset(ty: &str, itf: &str) -> (name: String)
    ensures
        name@ == spec_vtable_offset(ty@, itf@),
{
    let mut name = String::from_str("__");
    name.append(ty);
    name.append("_");
    name.append(itf);
    name.append("Vtbl_offset");
    name
}

/// The name of the thunk of a type for a method of an interface.
pub fn method_impl(ty: &str, itf: &str, method: &str) -> (name: String)
    ensures
        name@ == spec_method_impl(ty@, itf@, method@),
{
    let mut name = String::from_str("__");
    name.append(ty);
    name.append("_");
    name.append(itf);
    name.append("_");
    name.append(method);
    name
}

/// Texts made of name characters, one after the other, are made of name
/// characters.
pub proof fn lemma_plain_join(a: Seq<char>, b: Seq<char>)
    requires
        spec_plain(a),
        spec_plain(b),
    ensures
        spec_plain(a + b),
{
    assert forall|i: int| 0 <= i < (a + b).len() implies spec_name_char(#[trigger] (a + b)[i]) by {
        if i < a.len() {
            assert((a + b)[i] == a[i]);
        } else {
            assert((a + b)[i] == b[i - a.len()]);
        }
    }
}

/// A text made of name characters that begins with `__` is a name: no
/// reserved word begins so.
pub proof fn lemma_underscored_is_name(text: Seq<char>)
    requires
        spec_plain(text),
        text.len() >= 2,
        text[0] == '_',
        text[1] == '_',
    ensures
        spec_is_name(text),
{
    if spec_reserved(text) {
        lemma_reserved_shape(text);
    }
}

/// The names that are generated from texts made of name characters are
/// names.
pub proof fn lemma_generated_names(ty: Seq<char>, itf: Seq<char>, method: Seq<char>)
    requires
        spec_plain(ty),
        spec_plain(itf),
        spec_plain(method),
    ensures
        spec_is_name(spec_vtable_struct(itf)),
        spec_is_name(spec_vtable_instance(ty, itf)),
        spec_is_name(spec_vtable_offset(ty, itf)),
        spec_is_name(spec_method_impl(ty, itf, method)),
{
    reveal_strlit("__");
    reveal_strlit("_");
    reveal_strlit("Vtbl");
    reveal_strlit("Vtbl_INSTANCE");
    reveal_strlit("Vtbl_offset");
    assert(spec_plain("__"@));
    assert(spec_plain("_"@));
    assert(spec_plain("Vtbl"@));
    assert(spec_plain("Vtbl_INSTANCE"@));
    assert(spec_plain("Vtbl_offset"@));

    lemma_plain_join("__"@, itf);
    lemma_plain_join("__"@ + itf, "Vtbl"@);
    assert(spec_vtable_struct(itf)[0] == '_' && spec_vtable_struct(itf)[1] == '_');
    lemma_underscored_is_name(spec_vtable_struct(itf));

    lemma_plain_join("__"@, ty);
    lemma_plain_join("__"@ + ty, "_"@);
    lemma_plain_join("__"@ + ty + "_"@, itf);
    let stem = "__"@ + ty + "_"@ + itf;
    assert(stem[0] == '_' && stem[1] == '_');

    lemma_plain_join(stem, "Vtbl_INSTANCE"@);
    assert(spec_vtable_instance(ty, itf)[0] == stem[0] && spec_vtable_instance(ty, itf)[1]
        == stem[1]);
    lemma_underscored_is_name(spec_vtable_instance(ty, itf));

    lemma_plain_join(stem, "Vtbl_offset"@);
    assert(spec_vtable_offset(ty, itf)[0] == stem[0] && spec_vtable_offset(ty, itf)[1] == stem[1]);
    lemma_underscored_is_name(spec_vtable_offset(ty, itf));

    lemma_plain_join(stem, "_"@);
    lemma_plain_join(stem + "_"@, method);
    assert(spec_method_impl(ty, itf, method)[0] == stem[0] && spec_method_impl(ty, itf, method)[1]
        == stem[1]);
    lemma_underscored_is_name(spec_method_impl(ty, itf, method));
}

} // verus!
