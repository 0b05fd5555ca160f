use crate::json::{json_object, json_rep, json_string, obj_empty, JsonData};
use vstd::prelude::*;

verus! {

/// A JSON Web Key record: the seven string fields of an asymmetric key in the
/// standard exchange format. The values are pass-through payload; this layer
/// validates nothing about them.
#[derive(Debug, Clone, PartialEq, Eq)]
pub struct JsonWebKey {
    /// Key type
    pub kty: String,
    /// Curve
    pub crv: String,
    /// x-coordinate
    pub x: String,
    /// y-coordinate
    pub y: String,
    /// Private key
    pub d: String,
    /// Key usage
    pub use_: String,
    /// Key ID
    pub kid: String,
}

/// The fields of a key record, as the contracts see them.
pub struct JwkData {
    pub kty: Seq<char>,
    pub crv: Seq<char>,
    pub x: Seq<char>,
    pub y: Seq<char>,
    pub d: Seq<char>,
    pub use_: Seq<char>,
    pub kid: Seq<char>,
}

impl View for JsonWebKey {
    type V = JwkData;

    open spec fn view(&self) -> JwkData {
        JwkData {
            kty: self.kty@,
            crv: self.crv@,
            x: self.x@,
            y: self.y@,
            d: self.d@,
            use_: self.use_@,
            kid: self.kid@,
        }
    }
}

/// The JSON object a key record is carried as: the seven fields under their
/// standard member names, with the usage field under "use".
pub open spec fn key_json(k: JwkData) -> JsonData {
    JsonData::Obj(
        obj_empty().insert("kty"@, JsonData::Str(k.kty)).insert(
            "crv"@,
            JsonData::Str(k.crv),
        ).insert("x"@, JsonData::Str(k.x)).insert("y"@, JsonData::Str(k.y)).insert(
            "d"@,
            JsonData::Str(k.d),
        ).insert("use"@, JsonData::Str(k.use_)).insert("kid"@, JsonData::Str(k.kid)),
    )
}

impl JsonWebKey {
    /// Encodes this key record as its JSON object.
    pub(crate) fn to_json(&self) -> (v: serde_json::Value)
        ensures
            json_rep(v) == key_json(self@),
    {
        let mut m = serde_json::Map::new();
        m.insert("kty".to_string(), json_string(self.kty.clone()));
        m.insert("crv".to_string(), json_string(self.crv.clone()));
        m.insert("x".to_string(), json_string(self.x.clone()));
        m.insert("y".to_string(), json_string(self.y.clone()));
        m.insert("d".to_string(), json_string(self.d.clone()));
        m.insert("use".to_string(), json_string(self.use_.clone()));
        m.insert("kid".to_string(), json_string(self.kid.clone()));
        json_object(m)
    }
}

} // verus!
