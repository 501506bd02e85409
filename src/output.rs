use vstd::prelude::*;

use crate::error::Error;

verus! {

/// The typed value that every provider operation returns.
#[derive(Debug)]
pub enum Output {
    Bool(bool),
    I32(i32),
    I64(i64),
    Text(String),
}

impl Output {
    /// The wrapped boolean; `TypeMismatch` for every other variant.
    pub fn to_bool(o: Output) -> (r: Result<bool, Error>)
        ensures
            o is Bool ==> r == Ok::<bool, Error>(o->Bool_0),
            !(o is Bool) ==> r == Err::<bool, Error>(Error::TypeMismatch),
    {
        match o {
            Output::Bool(b) => Ok(b),
            _ => Err(Error::TypeMismatch),
        }
    }

    /// The wrapped 32-bit integer; `TypeMismatch` for every other variant.
    pub fn to_i32(o: Output) -> (r: Result<i32, Error>)
        ensures
            o is I32 ==> r == Ok::<i32, Error>(o->I32_0),
            !(o is I32) ==> r == Err::<i32, Error>(Error::TypeMismatch),
    {
        match o {
            Output::I32(v) => Ok(v),
            _ => Err(Error::TypeMismatch),
        }
    }

    /// The wrapped 64-bit integer; `TypeMismatch` for every other variant.
    pub fn to_i64(o: Output) -> (r: Result<i64, Error>)
        ensures
            o is I64 ==> r == Ok::<i64, Error>(o->I64_0),
            !(o is I64) ==> r == Err::<i64, Error>(Error::TypeMismatch),
    {
        match o {
            Output::I64(v) => Ok(v),
            _ => Err(Error::TypeMismatch),
        }
    }

    /// The wrapped text; `TypeMismatch` for every other variant.
    pub fn to_string(o: Output) -> (r: Result<String, Error>)
        ensures
            o is Text ==> (r matches Ok(s) && s@ == o->Text_0@),
            !(o is Text) ==> r == Err::<String, Error>(Error::TypeMismatch),
    {
        match o {
            Output::Text(s) => Ok(s),
            _ => Err(Error::TypeMismatch),
        }
    }
}

} // verus!
