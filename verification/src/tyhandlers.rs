//! The marshaling contract that applies to a parameter, and the code it
//! puts into a thunk.

use vstd::prelude::*;
use vstd::string::StringExecFns;
use crate::text::{join2, join3, str_eq};

verus! {

/// The marshaling contract of a parameter or of a result.
#[derive(Debug, Clone, Copy, PartialEq, Eq, Structural, Hash)]
pub enum TypeHandler {
    /// The wire value is the host value.
    Identity,
    /// The host value is an interface; the wire value is a table pointer.
    ComItf,
    /// The host value is text; the wire value is a wire string.
    Text,
}

/// How a thunk turns a wire argument into the argument of the host call.
pub struct TypeConversion {
    /// The expression that the host call receives.
    pub conversion: String,
    /// The statement that stores what the expression borrows from, where it
    /// borrows. It leaves the thunk with the status of the failure where
    /// the wire argument has no host value.
    pub stack: Option<String>,
}

/// The mathematical value of a `TypeConversion`.
pub struct TypeConversionView {
    pub conversion: Seq<char>,
    pub stack: Option<Seq<char>>,
}

impl DeepView for TypeConversion {
    type V = TypeConversionView;

    open spec fn deep_view(&self) -> TypeConversionView {
        TypeConversionView {
            conversion: self.conversion@,
            stack: match self.stack {
                Some(s) => Some(s@),
                None => None,
            },
        }
    }
}

/// Whether a type of that name is its own wire value.
pub open spec fn spec_is_identity_type(ty: Seq<char>) -> bool {
    ||| ty == "()"@
    ||| ty == "i8"@
    ||| ty == "i16"@
    ||| ty == "i32"@
    ||| ty == "i64"@
    ||| ty == "isize"@
    ||| ty == "u8"@
    ||| ty == "u16"@
    ||| ty == "u32"@
    ||| ty == "u64"@
    ||| ty == "usize"@
    ||| ty == "f32"@
    ||| ty == "f64"@
    ||| ty == "bool"@
    ||| ty == "HRESULT"@
    ||| ty == "GUID"@
    ||| ty == "TypeSystemName"@
    ||| ty == "RawComPtr"@
}

/// Whether a type of that name is text.
pub open spec fn spec_is_text_type(ty: Seq<char>) -> bool {
    ||| ty == "BString"@
    ||| ty == "BStr"@
    ||| ty == "String"@
    ||| ty == "str"@
}

/// The contract of a type of that name, where there is one: text types
/// first, then the interface type, then the types that stand for themselves.
pub open spec fn spec_get_ty_handler(ty: Seq<char>) -> Option<TypeHandler> {
    if spec_is_text_type(ty) {
        Some(TypeHandler::Text)
    } else if ty == "ComItf"@ {
        Some(TypeHandler::ComItf)
    } else if spec_is_identity_type(ty) {
        Some(TypeHandler::Identity)
    } else {
        None
    }
}

/// The name of the temporary that holds the host text of a wire string.
pub open spec fn spec_temporary(ident: Seq<char>) -> Seq<char> {
    "__"@ + ident + "_temporary"@
}

impl TypeHandler {
    /// The wire type for a host type.
    pub open spec fn spec_com_ty(self, rust_ty: Seq<char>) -> Seq<char> {
        match self {
            TypeHandler::Identity => rust_ty,
            TypeHandler::ComItf => "::intercom::RawComPtr"@,
            TypeHandler::Text => "::intercom::BSTR"@,
        }
    }

    /// The conversion of the wire argument of that name.
    pub open spec fn spec_com_to_rust(self, ident: Seq<char>) -> TypeConversionView {
        match self {
            TypeHandler::Identity => TypeConversionView {
                conversion: ident + ".into()"@,
                stack: None,
            },
            TypeHandler::ComItf => TypeConversionView {
                conversion: "::intercom::ComItf::wrap("@ + ident + ")"@,
                stack: None,
            },
            TypeHandler::Text => TypeConversionView {
                conversion: "&"@ + spec_temporary(ident),
                stack: Some(
                    "let "@ + spec_temporary(ident) + " = match ::intercom::BStr::to_string("@
                        + ident + ") { Ok(v) => v, Err(e) => return e.into() };"@,
                ),
            },
        }
    }

    /// The expression for the wire value of the host value of that name.
    pub open spec fn spec_rust_to_com(self, ident: Seq<char>) -> Seq<char> {
        match self {
            TypeHandler::Identity => ident + ".into()"@,
            TypeHandler::ComItf => "::intercom::ComItf::ptr(&"@ + ident + ")"@,
            TypeHandler::Text => "::intercom::BStr::from_string(&"@ + ident + ")"@,
        }
    }

    /// The wire type for a host type.
    pub fn com_ty(&self, rust_ty: &str) -> (ty: String)
        ensures
            ty@ == self.spec_com_ty(rust_ty@),
    {
        match self {
            TypeHandler::Identity => String::from_str(rust_ty),
            TypeHandler::ComItf => String::from_str("::intercom::RawComPtr"),
            TypeHandler::Text => String::from_str("::intercom::BSTR"),
        }
    }

    /// The conversion of the wire argument of that name.
    pub fn com_to_rust(&self, ident: &str) -> (conv: TypeConversion)
        ensures
            conv.deep_view() == self.spec_com_to_rust(ident@),
    {
        match self {
            TypeHandler::Identity => TypeConversion {
                conversion: join2(ident, ".into()"),
                stack: None,
            },
            TypeHandler::ComItf => TypeConversion {
                conversion: join3("::intercom::ComItf::wrap(", ident, ")"),
                stack: None,
            },
            TypeHandler::Text => {
                let temporary = join3("__", ident, "_temporary");
                let mut stack = join3(
                    "let ",
                    temporary.as_str(),
                    " = match ::intercom::BStr::to_string(",
                );
                stack.append(ident);
                stack.append(") { Ok(v) => v, Err(e) => return e.into() };");
                TypeConversion { conversion: join2("&", temporary.as_str()), stack: Some(stack) }
            },
        }
    }

    /// The expression for the wire value of the host value of that name.
    pub fn rust_to_com(&self, ident: &str) -> (expr: String)
        ensures
            expr@ == self.spec_rust_to_com(ident@),
    {
        match self {
            TypeHandler::Identity => join2(ident, ".into()"),
            TypeHandler::ComItf => join3("::intercom::ComItf::ptr(&", ident, ")"),
            TypeHandler::Text => join3("::intercom::BStr::from_string(&", ident, ")"),
        }
    }
}

/// Whether a type of that name is its own wire value.
pub fn is_identity_type(ty: &str) -> (yes: bool)
    ensures
        yes == spec_is_identity_type(ty@),
{
    str_eq(ty, "()") || str_eq(ty, "i8") || str_eq(ty, "i16") || str_eq(ty, "i32") || str_eq(
        ty,
        "i64",
    ) || str_eq(ty, "isize") || str_eq(ty, "u8") || str_eq(ty, "u16") || str_eq(ty, "u32")
        || str_eq(ty, "u64") || str_eq(ty, "usize") || str_eq(ty, "f32") || str_eq(ty, "f64")
        || str_eq(ty, "bool") || str_eq(ty, "HRESULT")
        || str_eq(ty, "GUID") || str_eq(ty, "TypeSystemName") || str_eq(ty, "RawComPtr")
}

/// Whether a type of that name is text.
pub fn is_text_type(ty: &str) -> (yes: bool)
    ensures
        yes == spec_is_text_type(ty@),
{
    str_eq(ty, "BString") || str_eq(ty, "BStr") || str_eq(ty, "String") || str_eq(ty, "str")
}

/// The contract of a type of that name, or `None` where the library has no
/// contract for it.
pub fn get_ty_handler(ty: &str) -> (handler: Option<TypeHandler>)
    ensures
        handler == spec_get_ty_handler(ty@),
{
    if is_text_type(ty) {
        Some(TypeHandler::Text)
    } else if str_eq(ty, "ComItf") {
        Some(TypeHandler::ComItf)
    } else if is_identity_type(ty) {
        Some(TypeHandler::Identity)
    } else {
        None
    }
}

} // verus!
