//! The library's model of a parsed JSON document, and the trusted bridge
//! to the outside JSON parser.
//!
//! The protocol only ever reads null, booleans, unsigned integers,
//! strings, arrays and objects; any other number shape is carried as
//! [`JsonValue::Other`] and rejected by the typed extractors.

use vstd::prelude::*;
use vstd::string::StrSliceExecFns;

verus! {

broadcast use vstd::std_specs::vec::group_vec_axioms;

/// A parsed JSON document, restricted to the shapes the protocol uses.
///
/// Object bindings keep the order the parser hands them out in; a lookup
/// takes the first binding with the wanted key.
pub enum JsonValue {
    Null,
    Bool(bool),
    UInt(u64),
    Str(String),
    Arr(Vec<JsonValue>),
    Obj(Vec<(String, JsonValue)>),
    /// A number outside `u64` (negative, fractional or too large); the
    /// protocol never produces one, and every typed extractor rejects it.
    Other,
}

/// The mathematical shape of a [`JsonValue`]: strings as character
/// sequences, vectors as sequences.
pub enum JsonView {
    Null,
    Bool(bool),
    UInt(u64),
    Str(Seq<char>),
    Arr(Seq<JsonView>),
    Obj(Seq<(Seq<char>, JsonView)>),
    Other,
}

/// The model of a sequence of JSON array elements.
pub open spec fn model_elems(s: Seq<JsonValue>) -> Seq<JsonView>
    decreases s,
{
    if s.len() == 0 {
        Seq::empty()
    } else {
        seq![s[0].model()] + model_elems(s.drop_first())
    }
}

/// The model of a sequence of JSON object bindings.
pub open spec fn model_members(s: Seq<(String, JsonValue)>) -> Seq<(Seq<char>, JsonView)>
    decreases s,
{
    if s.len() == 0 {
        Seq::empty()
    } else {
        seq![(s[0].0@, s[0].1.model())] + model_members(s.drop_first())
    }
}

impl JsonValue {
    /// The mathematical value of this document.
    pub open spec fn model(self) -> JsonView
        decreases self,
    {
        match self {
            JsonValue::Null => JsonView::Null,
            JsonValue::Bool(b) => JsonView::Bool(b),
            JsonValue::UInt(u) => JsonView::UInt(u),
            JsonValue::Str(s) => JsonView::Str(s@),
            JsonValue::Arr(a) => JsonView::Arr(model_elems(a@)),
            JsonValue::Obj(o) => JsonView::Obj(model_members(o@)),
            JsonValue::Other => JsonView::Other,
        }
    }
}

impl View for JsonValue {
    type V = JsonView;

    open spec fn view(&self) -> JsonView {
        self.model()
    }
}

/// `model_elems` maps the sequence pointwise.
pub proof fn lemma_model_elems(s: Seq<JsonValue>)
    ensures
        model_elems(s).len() == s.len(),
        forall|j: int| 0 <= j < s.len() ==> model_elems(s)[j] == #[trigger] s[j]@,
    decreases s.len(),
{
    if s.len() > 0 {
        lemma_model_elems(s.drop_first());
        assert forall|j: int| 0 <= j < s.len() implies model_elems(s)[j] == #[trigger] s[j]@ by {
            if j > 0 {
                assert(s.drop_first()[j - 1] == s[j]);
                assert(model_elems(s)[j] == model_elems(s.drop_first())[j - 1]);
            }
        }
    }
}

/// `model_members` maps the binding sequence pointwise.
pub proof fn lemma_model_members(s: Seq<(String, JsonValue)>)
    ensures
        model_members(s).len() == s.len(),
        forall|j: int| 0 <= j < s.len()
            ==> model_members(s)[j] == (#[trigger] s[j].0@, s[j].1@),
    decreases s.len(),
{
    if s.len() > 0 {
        lemma_model_members(s.drop_first());
        assert forall|j: int| 0 <= j < s.len() implies model_members(s)[j] == (
        #[trigger] s[j].0@,
        s[j].1@,
        ) by {
            if j > 0 {
                assert(s.drop_first()[j - 1] == s[j]);
                assert(model_members(s)[j] == model_members(s.drop_first())[j - 1]);
            }
        }
    }
}

/// The first binding of `key` among the object bindings `fields`, if any.
pub open spec fn lookup_spec(fields: Seq<(Seq<char>, JsonView)>, key: Seq<char>) -> Option<
    JsonView,
>
    decreases fields.len(),
{
    if fields.len() == 0 {
        None
    } else if fields[0].0 == key {
        Some(fields[0].1)
    } else {
        lookup_spec(fields.drop_first(), key)
    }
}

/// String equality, character by character.
pub fn str_eq(a: &str, b: &str) -> (r: bool)
    ensures
        r == (a@ == b@),
{
    let la = a.unicode_len();
    let lb = b.unicode_len();
    if la != lb {
        return false;
    }
    let mut i: usize = 0;
    while i < la
        invariant
            la == a@.len(),
            la == b@.len(),
            i <= la,
            forall|j: int| 0 <= j < i ==> a@[j] == b@[j],
        decreases la - i,
    {
        if a.get_char(i) != b.get_char(i) {
            return false;
        }
        i += 1;
    }
    proof {
        assert(a@ =~= b@);
    }
    true
}

/// The first binding of `key` in `fields`, as [`lookup_spec`] gives it
/// on the bindings' model.
pub fn lookup<'a>(fields: &'a Vec<(String, JsonValue)>, key: &str) -> (r: Option<&'a JsonValue>)
    ensures
        match r {
            Some(v) => lookup_spec(model_members(fields@), key@) == Some(v@),
            None => lookup_spec(model_members(fields@), key@) is None,
        },
{
    let ghost all: Seq<(Seq<char>, JsonView)> = model_members(fields@);
    proof {
        lemma_model_members(fields@);
        assert(all.skip(0) =~= all);
    }
    let mut i: usize = 0;
    while i < fields.len()
        invariant
            i <= fields.len(),
            all == model_members(fields@),
            all.len() == fields@.len(),
            forall|j: int| 0 <= j < all.len() ==> all[j] == (#[trigger] fields@[j].0@, fields@[j].1@),
            lookup_spec(all, key@) == lookup_spec(all.skip(i as int), key@),
        decreases fields.len() - i,
    {
        if str_eq(fields[i].0.as_str(), key) {
            proof {
                assert(all.skip(i as int)[0] == all[i as int]);
                reveal_with_fuel(lookup_spec, 2);
            }
            return Some(&fields[i].1);
        }
        proof {
            assert(all.skip(i as int)[0] == all[i as int]);
            reveal_with_fuel(lookup_spec, 2);
            assert(all.skip(i as int).drop_first() =~= all.skip(i + 1));
        }
        i += 1;
    }
    proof {
        assert(all.skip(i as int).len() == 0);
        reveal_with_fuel(lookup_spec, 1);
    }
    None
}

/// Declares `serde_json::Value`, the outside parser's document type,
/// which the conversion below walks; the library holds no value of it.
#[verifier::external_type_specification]
#[verifier::external_body]
pub struct ExValue(serde_json::Value);

/// What the outside JSON parser yields on a given text: `None` for text
/// that is not one well-formed JSON document, otherwise the document in
/// the library's model.  The result depends on the text alone.
pub uninterp spec fn json_of(s: Seq<char>) -> Option<JsonView>;

/// Relies on `serde_json::from_str::<serde_json::Value>`: parsing is a
/// pure function of the input text, succeeding exactly on well-formed
/// JSON documents.
#[verifier::external_body]
pub fn parse_json(s: &str) -> (r: Option<JsonValue>)
    ensures
        match r {
            Some(v) => json_of(s@) == Some(v@),
            None => json_of(s@) is None,
        },
{
    match serde_json::from_str::<serde_json::Value>(s) {
        Ok(v) => Some(json_from_value(&v)),
        Err(_) => None,
    }
}

/// Conversion step of [`parse_json`]: carries each `serde_json::Value`
/// variant over to the library's model, one arm per variant, moving the
/// contents and nothing else.
#[verifier::external_body]
fn json_from_value(v: &serde_json::Value) -> JsonValue {
    match v {
        serde_json::Value::Null => JsonValue::Null,
        serde_json::Value::Bool(b) => JsonValue::Bool(*b),
        serde_json::Value::Number(n) => match n.as_u64() {
            Some(u) => JsonValue::UInt(u),
            None => JsonValue::Other,
        },
        serde_json::Value::String(s) => JsonValue::Str(s.clone()),
        serde_json::Value::Array(a) => JsonValue::Arr(a.iter().map(json_from_value).collect()),
        serde_json::Value::Object(m) => JsonValue::Obj(
            m.iter().map(|(k, x)| (k.clone(), json_from_value(x))).collect(),
        ),
    }
}

} // verus!
