//! The record that a row of the `users` table maps to, and its wire form.

use vstd::prelude::*;
use crate::json::{decimal, encode_number, encode_text, json_text};

verus! {

/// One row of the `users` table.
#[derive(Debug)]
pub struct User {
    pub id: u32,
    pub name: String,
    pub email: String,
}

/// `{"id":`
pub open spec fn id_key() -> Seq<u8> {
    seq![0x7bu8, 0x22, 0x69, 0x64, 0x22, 0x3a]
}

/// `,"name":`
pub open spec fn name_key() -> Seq<u8> {
    seq![0x2cu8, 0x22, 0x6e, 0x61, 0x6d, 0x65, 0x22, 0x3a]
}

/// `,"email":`
pub open spec fn email_key() -> Seq<u8> {
    seq![0x2cu8, 0x22, 0x65, 0x6d, 0x61, 0x69, 0x6c, 0x22, 0x3a]
}

/// The JSON object `{"id":…,"name":…,"email":…}` around three encoded
/// values, without any whitespace.
pub open spec fn object_bytes(id: Seq<u8>, name: Seq<u8>, email: Seq<u8>) -> Seq<u8> {
    id_key() + id + name_key() + name + email_key() + email + seq![0x7du8]
}

impl User {
    /// The bytes that stand for this record on the wire, or `None` if one of
    /// its strings has no JSON form.
    pub open spec fn wire(&self) -> Option<Seq<u8>> {
        match (json_text(self.name@), json_text(self.email@)) {
            (Some(name), Some(email)) => Some(object_bytes(decimal(self.id as nat), name, email)),
            _ => None,
        }
    }

    /// Serialises the record as one JSON object. Fails exactly when the
    /// record has no wire form, with the error of the first field that
    /// could not be encoded.
    pub fn to_json(&self) -> (r: Result<Vec<u8>, serde_json::Error>)
        ensures
            match r {
                Ok(bytes) => self.wire() == Some(bytes@),
                Err(_) => self.wire() is None,
            },
    {
        let mut name = match encode_text(self.name.as_str()) {
            Ok(bytes) => bytes,
            Err(e) => {
                return Err(e);
            },
        };
        let mut email = match encode_text(self.email.as_str()) {
            Ok(bytes) => bytes,
            Err(e) => {
                return Err(e);
            },
        };
        let mut id = encode_number(self.id);
        let mut out: Vec<u8> = vec![0x7b, 0x22, 0x69, 0x64, 0x22, 0x3a];
        out.append(&mut id);
        let mut key: Vec<u8> = vec![0x2c, 0x22, 0x6e, 0x61, 0x6d, 0x65, 0x22, 0x3a];
        out.append(&mut key);
        out.append(&mut name);
        let mut key: Vec<u8> = vec![0x2c, 0x22, 0x65, 0x6d, 0x61, 0x69, 0x6c, 0x22, 0x3a];
        out.append(&mut key);
        out.append(&mut email);
        out.push(0x7d);
        Ok(out)
    }
}

} // verus!
