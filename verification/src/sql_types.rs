//! SQL value types and typed values.

use vstd::prelude::*;
use vstd::string::StringSliceAdditionalSpecFns;
use vstd::utf8::*;

use crate::text::str_from_utf8;

verus! {

/// The server's type code for a string value.
pub const STRING_RESULT: i32 = 0;
/// The server's type code for a real (double) value.
pub const REAL_RESULT: i32 = 1;
/// The server's type code for an integer (long long) value.
pub const INT_RESULT: i32 = 2;
/// The server's type code for a decimal value (passed as a string).
pub const DECIMAL_RESULT: i32 = 4;
/// The server's code for an invalid type (not valid for UDFs).
pub const INVALID_RESULT: i32 = -1;
/// The server's code for a row (not valid for UDFs).
pub const ROW_RESULT: i32 = 3;

/// Enum representing possible SQL result types
///
/// This simply represents the possible types, but does not contain any values.
/// [`SqlResult`] is the corresponding enum that actually contains data.
#[derive(Clone, Copy, Debug, PartialEq, Eq, Structural)]
#[non_exhaustive]
pub enum SqlType {
    /// Integer result
    Int,
    /// Real result
    Real,
    /// String result
    String,
    /// Decimal result
    Decimal,
}

/// The server's type code of a SQL type.
pub open spec fn type_code(t: SqlType) -> i32 {
    match t {
        SqlType::Int => INT_RESULT,
        SqlType::Real => REAL_RESULT,
        SqlType::String => STRING_RESULT,
        SqlType::Decimal => DECIMAL_RESULT,
    }
}

/// The SQL type with the given server code, if the code names one.
pub open spec fn type_of_code(code: int) -> Option<SqlType> {
    if code == INT_RESULT {
        Some(SqlType::Int)
    } else if code == REAL_RESULT {
        Some(SqlType::Real)
    } else if code == STRING_RESULT {
        Some(SqlType::String)
    } else if code == DECIMAL_RESULT {
        Some(SqlType::Decimal)
    } else {
        None
    }
}

/// Whether `code` is one of the server's type codes (`INVALID_RESULT` to
/// `DECIMAL_RESULT`).
pub open spec fn is_item_result_code(code: int) -> bool {
    INVALID_RESULT <= code <= DECIMAL_RESULT
}

/// The displayable name of a SQL type.
pub open spec fn spec_display_name(t: SqlType) -> &'static str {
    match t {
        SqlType::String => "string",
        SqlType::Real => "real",
        SqlType::Int => "int",
        SqlType::Decimal => "decimal",
    }
}

/// Message of the error for a code that is no SQL type.
pub const INVALID_TAG_MSG: &'static str = "invalid arg type {tag} received";

/// Codes and names are the two ways back and forth between a type and its
/// server code: the code of a type names that type again.
pub proof fn law_type_code_roundtrip(t: SqlType)
    ensures
        type_of_code(type_code(t) as int) == Some(t),
        is_item_result_code(type_code(t) as int),
{
}

impl SqlType {
    /// The server's type code for this type (its `Item_result` value).
    pub fn to_item_result(&self) -> (r: i32)
        ensures
            r == type_code(*self),
    {
        match *self {
            Self::Int => INT_RESULT,
            Self::Real => REAL_RESULT,
            Self::String => STRING_RESULT,
            Self::Decimal => DECIMAL_RESULT,
        }
    }

    /// Small helper function to get a displayable type name.
    pub fn display_name(&self) -> (r: &'static str)
        ensures
            r == spec_display_name(*self),
    {
        match *self {
            Self::String => "string",
            Self::Real => "real",
            Self::Int => "int",
            Self::Decimal => "decimal",
        }
    }

    /// Create a [`SqlType`] from an integer code.
    pub fn try_from_i8(tag: i8) -> (r: Result<SqlType, String>)
        ensures
            r is Ok <==> type_of_code(tag as int) is Some,
            r matches Ok(t) ==> type_of_code(tag as int) == Some(t),
            r matches Err(e) ==> e@ == INVALID_TAG_MSG@,
    {
        Self::try_from_item_result(tag as i32)
    }

    /// Create a [`SqlType`] from a server type code.
    pub fn try_from_item_result(tag: i32) -> (r: Result<SqlType, String>)
        ensures
            r is Ok <==> type_of_code(tag as int) is Some,
            r matches Ok(t) ==> type_of_code(tag as int) == Some(t),
            r matches Err(e) ==> e@ == INVALID_TAG_MSG@,
    {
        if tag == STRING_RESULT {
            Ok(Self::String)
        } else if tag == REAL_RESULT {
            Ok(Self::Real)
        } else if tag == INT_RESULT {
            Ok(Self::Int)
        } else if tag == DECIMAL_RESULT {
            Ok(Self::Decimal)
        } else {
            Err(INVALID_TAG_MSG.to_owned())
        }
    }

    /// The type of a value.
    pub fn from_result(tag: &SqlResult) -> (r: SqlType)
        ensures
            r == tag.sql_type(),
    {
        match *tag {
            SqlResult::String(_) => Self::String,
            SqlResult::Real(_) => Self::Real,
            SqlResult::Int(_) => Self::Int,
            SqlResult::Decimal(_) => Self::Decimal,
        }
    }
}

/// A possible SQL result consisting of a type and nullable value
///
/// This enum is similar to [`SqlType`], but actually contains the object.
///
/// [`SqlResult::String`] contains a `u8` slice rather than a `&str` because
/// there is no guarantee that the data is UTF-8. A real value is held as the
/// bit pattern of its IEEE 754 `f64` (`f64::to_bits`).
#[derive(Debug, PartialEq, Clone)]
#[non_exhaustive]
pub enum SqlResult<'a> {
    /// A string result
    String(Option<&'a [u8]>),
    /// A floating point result, as the bits of an `f64`
    Real(Option<u64>),
    /// A nullable integer
    Int(Option<i64>),
    /// This is a string that is to be represented as a decimal
    Decimal(Option<&'a str>),
}

/// Raw data of a non-null argument as read from the server's memory: either
/// the 8-byte word it points to, or the bytes of a string.
#[derive(Debug, Clone)]
pub enum RawArg<'a> {
    /// The 64-bit word at the argument's address
    Word(u64),
    /// The argument's bytes (of the length the server gave)
    Bytes(&'a [u8]),
}

/// Message of the error for argument data whose shape does not suit its type.
pub const BAD_DATA_MSG: &'static str = "argument data does not match its type";

/// The name the server's bindings give an invalid type code.
pub open spec fn invalid_code_name(tag: i32) -> Seq<char> {
    if tag == INVALID_RESULT {
        "INVALID_RESULT"@
    } else {
        "ROW_RESULT"@
    }
}

/// The value decoded from a type code and raw data, or `None` when the data
/// does not suit the type.
pub open spec fn decoded_value<'a>(t: SqlType, data: Option<RawArg<'a>>) -> Option<SqlResult<'a>> {
    match data {
        None => Some(
            match t {
                SqlType::Int => SqlResult::Int(None),
                SqlType::Real => SqlResult::Real(None),
                SqlType::String => SqlResult::String(None),
                SqlType::Decimal => SqlResult::Decimal(None),
            },
        ),
        Some(RawArg::Word(w)) => match t {
            SqlType::Int => Some(SqlResult::Int(Some(w as i64))),
            SqlType::Real => Some(SqlResult::Real(Some(w))),
            _ => None,
        },
        Some(RawArg::Bytes(b)) => match t {
            SqlType::String => Some(SqlResult::String(Some(b))),
            _ => None,
        },
    }
}

impl<'a> SqlResult<'a> {
    /// The type of this value.
    pub open spec fn sql_type(&self) -> SqlType {
        match *self {
            SqlResult::String(_) => SqlType::String,
            SqlResult::Real(_) => SqlType::Real,
            SqlResult::Int(_) => SqlType::Int,
            SqlResult::Decimal(_) => SqlType::Decimal,
        }
    }

    /// Whether this value is `NULL`.
    pub open spec fn is_null(&self) -> bool {
        match *self {
            SqlResult::String(v) => v is None,
            SqlResult::Real(v) => v is None,
            SqlResult::Int(v) => v is None,
            SqlResult::Decimal(v) => v is None,
        }
    }

    /// Construct a `SqlResult` from a server type code and the argument's raw
    /// data (`None` for a null pointer).
    ///
    /// The code must be one of the server's type codes; `INVALID_RESULT` and
    /// `ROW_RESULT` are rejected with a message naming them. A non-null
    /// integer or real is read from the word, a string from the bytes; a
    /// decimal's bytes must be UTF-8. Data of the wrong shape for the type is
    /// rejected.
    pub fn from_raw(tag: i32, data: Option<RawArg<'a>>) -> (r: Result<SqlResult<'a>, String>)
        requires
            is_item_result_code(tag as int),
        ensures
            type_of_code(tag as int) is None ==> (r matches Err(e) && e@ == "invalid arg type "@
                + invalid_code_name(tag) + " received"@),
            type_of_code(tag as int) matches Some(t) ==> match t {
                SqlType::Decimal => match data {
                    None => r == Ok::<SqlResult<'a>, String>(SqlResult::Decimal(None)),
                    Some(RawArg::Bytes(b)) => if valid_utf8(b@) {
                        r matches Ok(SqlResult::Decimal(Some(s))) && s.spec_bytes() == b@
                    } else {
                        r matches Err(e) && e@ == BAD_DATA_MSG@
                    },
                    Some(RawArg::Word(_)) => r matches Err(e) && e@ == BAD_DATA_MSG@,
                },
                _ => match decoded_value(t, data) {
                    Some(v) => r == Ok::<SqlResult<'a>, String>(v),
                    None => r matches Err(e) && e@ == BAD_DATA_MSG@,
                },
            },
    {
        let marker = match SqlType::try_from_item_result(tag) {
            Ok(m) => m,
            Err(_) => {
                let name = if tag == INVALID_RESULT {
                    "invalid arg type INVALID_RESULT received"
                } else {
                    "invalid arg type ROW_RESULT received"
                };
                proof {
                    reveal_strlit("invalid arg type INVALID_RESULT received");
                    reveal_strlit("invalid arg type ROW_RESULT received");
                    reveal_strlit("invalid arg type ");
                    reveal_strlit(" received");
                    reveal_strlit("INVALID_RESULT");
                    reveal_strlit("ROW_RESULT");
                    assert(name@ =~= "invalid arg type "@ + invalid_code_name(tag) + " received"@);
                }
                return Err(name.to_owned());
            },
        };
        match data {
            None => Ok(
                match marker {
                    SqlType::Int => SqlResult::Int(None),
                    SqlType::Real => SqlResult::Real(None),
                    SqlType::String => SqlResult::String(None),
                    SqlType::Decimal => SqlResult::Decimal(None),
                },
            ),
            Some(RawArg::Word(w)) => match marker {
                SqlType::Int => Ok(SqlResult::Int(Some(#[verifier::truncate] (w as i64)))),
                SqlType::Real => Ok(SqlResult::Real(Some(w))),
                _ => Err(BAD_DATA_MSG.to_owned()),
            },
            Some(RawArg::Bytes(b)) => match marker {
                SqlType::String => Ok(SqlResult::String(Some(b))),
                SqlType::Decimal => match str_from_utf8(b) {
                    Some(s) => Ok(SqlResult::Decimal(Some(s))),
                    None => Err(BAD_DATA_MSG.to_owned()),
                },
                _ => Err(BAD_DATA_MSG.to_owned()),
            },
        }
    }

    /// Small helper function to get a displayable type name.
    pub fn display_name(&self) -> (r: &'static str)
        ensures
            r == spec_display_name(self.sql_type()),
    {
        SqlType::from_result(self).display_name()
    }

    /// Check if this argument is an integer type, even if it may be null
    pub fn is_int(&self) -> (r: bool)
        ensures
            r == (self is Int),
    {
        matches!(*self, Self::Int(_))
    }

    /// Check if this argument is an real type, even if it may be null
    pub fn is_real(&self) -> (r: bool)
        ensures
            r == (self is Real),
    {
        matches!(*self, Self::Real(_))
    }

    /// Check if this argument is an string type, even if it may be null
    pub fn is_string(&self) -> (r: bool)
        ensures
            r == (self is String),
    {
        matches!(*self, Self::String(_))
    }

    /// Check if this argument is an decimal type, even if it may be null
    pub fn is_decimal(&self) -> (r: bool)
        ensures
            r == (self is Decimal),
    {
        matches!(*self, Self::Decimal(_))
    }

    /// Return this type as an integer if possible
    ///
    /// This will exist if the variant is [`SqlResult::Int`], and it contains a
    /// value.
    pub fn as_int(&self) -> (r: Option<i64>)
        ensures
            r == (match *self {
                SqlResult::Int(v) => v,
                _ => None,
            }),
    {
        match *self {
            Self::Int(v) => v,
            _ => None,
        }
    }

    /// Return this value as a real (the bits of an `f64`) if possible
    ///
    /// This will exist if the variant is [`SqlResult::Real`], and it contains a
    /// value.
    pub fn as_real(&self) -> (r: Option<u64>)
        ensures
            r == (match *self {
                SqlResult::Real(v) => v,
                _ => None,
            }),
    {
        match *self {
            Self::Real(v) => v,
            _ => None,
        }
    }

    /// Return this type as a string if possible
    ///
    /// This will exist if the variant is [`SqlResult::String`] holding valid
    /// UTF-8, or [`SqlResult::Decimal`], and it contains a value.
    pub fn as_string(&self) -> (r: Option<&'a str>)
        ensures
            match *self {
                SqlResult::String(Some(v)) => if valid_utf8(v@) {
                    r matches Some(s) && s.spec_bytes() == v@
                } else {
                    r is None
                },
                SqlResult::Decimal(Some(v)) => r == Some(v),
                _ => r is None,
            },
    {
        match *self {
            Self::String(Some(v)) => str_from_utf8(v),
            Self::Decimal(Some(v)) => Some(v),
            _ => None,
        }
    }

    /// Return this type as a byte slice if possible
    ///
    /// This will exist if the variant is [`SqlResult::String`], or
    /// [`SqlResult::Decimal`], and it contains a value.
    pub fn as_bytes(&self) -> (r: Option<&'a [u8]>)
        ensures
            match *self {
                SqlResult::String(Some(v)) => r == Some(v),
                SqlResult::Decimal(Some(v)) => r matches Some(b) && b@ == v.spec_bytes(),
                _ => r is None,
            },
    {
        match *self {
            Self::String(Some(v)) => Some(v),
            Self::Decimal(Some(v)) => Some(v.as_bytes()),
            _ => None,
        }
    }
}

} // verus!
