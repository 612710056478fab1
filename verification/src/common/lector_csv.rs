use crate::common::numeros::{entero_de, natural_de, parsear_i32, parsear_usize};
use csv::StringRecord;
use vstd::prelude::*;
use vstd::string::StringSliceAdditionalSpecFns;

verus! {

/// A record of `csv`: the fields of one line. Nothing inside it is visible
/// here but through `campos`.
#[verifier::external_type_specification]
#[verifier::external_body]
pub struct ExStringRecord(csv::StringRecord);

/// The fields of a record, in order, each as its text.
pub uninterp spec fn campos(registro: StringRecord) -> Seq<Seq<char>>;

/// `csv::StringRecord::get`: the field at position `i`, or nothing when the
/// record has no such field.
pub assume_specification[ csv::StringRecord::get ](registro: &StringRecord, i: usize) -> (r:
    Option<&str>)
    ensures
        match r {
            Some(campo) => i < campos(*registro).len() && campo@ == campos(*registro)[i as int],
            None => i >= campos(*registro).len(),
        },
;

/// Why a record could not be read as a value.
#[derive(Debug, Clone, Copy, PartialEq, Eq, Structural)]
pub enum ErrorRegistro {
    /// The record has no field at this position.
    FaltaCampo(usize),
    /// The field at this position is not a number of the kind expected.
    NumeroInvalido(usize),
}

/// The bytes of a field's text.
pub open spec fn bytes_de(campo: Seq<char>) -> Seq<u8> {
    vstd::utf8::encode_utf8(campo)
}

/// What the field at position `i` holds as an unsigned number.
pub open spec fn natural_en(campos: Seq<Seq<char>>, i: usize) -> Result<usize, ErrorRegistro> {
    if i >= campos.len() {
        Err(ErrorRegistro::FaltaCampo(i))
    } else {
        match natural_de(bytes_de(campos[i as int])) {
            Some(n) => if n <= usize::MAX {
                Ok(n as usize)
            } else {
                Err(ErrorRegistro::NumeroInvalido(i))
            },
            None => Err(ErrorRegistro::NumeroInvalido(i)),
        }
    }
}

/// What the field at position `i` holds as a signed number.
pub open spec fn entero_en(campos: Seq<Seq<char>>, i: usize) -> Result<i32, ErrorRegistro> {
    if i >= campos.len() {
        Err(ErrorRegistro::FaltaCampo(i))
    } else {
        match entero_de(bytes_de(campos[i as int])) {
            Some(n) => if i32::MIN <= n <= i32::MAX {
                Ok(n as i32)
            } else {
                Err(ErrorRegistro::NumeroInvalido(i))
            },
            None => Err(ErrorRegistro::NumeroInvalido(i)),
        }
    }
}

/// Reads the field at position `i` as an unsigned number.
pub fn campo_usize(registro: &StringRecord, i: usize) -> (r: Result<usize, ErrorRegistro>)
    ensures
        r == natural_en(campos(*registro), i),
{
    match registro.get(i) {
        None => Err(ErrorRegistro::FaltaCampo(i)),
        Some(campo) => match parsear_usize(campo) {
            Some(n) => Ok(n),
            None => Err(ErrorRegistro::NumeroInvalido(i)),
        },
    }
}

/// Reads the field at position `i` as a signed number.
pub fn campo_i32(registro: &StringRecord, i: usize) -> (r: Result<i32, ErrorRegistro>)
    ensures
        r == entero_en(campos(*registro), i),
{
    match registro.get(i) {
        None => Err(ErrorRegistro::FaltaCampo(i)),
        Some(campo) => match parsear_i32(campo) {
            Some(n) => Ok(n),
            None => Err(ErrorRegistro::NumeroInvalido(i)),
        },
    }
}

} // verus!
