use vstd::prelude::*;

verus! {

/// A JSON document, reduced to what the import pipeline reads from one:
/// string values by their decoded content, objects by their entries in
/// document order, and every other value (null, booleans, numbers,
/// arrays) by its JSON rendering alone.
pub enum Json {
    /// A JSON string; the field is its decoded content.
    Str(String),
    /// A JSON object: its key/value entries in document order, together
    /// with the object rendered back as JSON text (the text a structured
    /// value is stored as).
    Object(Vec<(String, Json)>, String),
    /// Any other JSON value, by its rendering.
    Other(String),
}

/// The model of a `Json` tree: the same shape over character sequences.
pub enum JsonModel {
    Str(Seq<char>),
    Object(Seq<(Seq<char>, JsonModel)>, Seq<char>),
    Other(Seq<char>),
}

/// The model of a tree, node by node.
pub open spec fn json_model(j: Json) -> JsonModel
    decreases j,
{
    match j {
        Json::Str(s) => JsonModel::Str(s@),
        Json::Object(entries, dump) => JsonModel::Object(entries_model(entries@), dump@),
        Json::Other(t) => JsonModel::Other(t@),
    }
}

/// The models of an entry list, in order.
pub open spec fn entries_model(es: Seq<(String, Json)>) -> Seq<(Seq<char>, JsonModel)>
    decreases es,
{
    if es.len() == 0 {
        Seq::empty()
    } else {
        seq![(es[0].0@, json_model(es[0].1))] + entries_model(es.drop_first())
    }
}

/// `entries_model` is the element-wise model.
pub proof fn lemma_entries_model(es: Seq<(String, Json)>)
    ensures
        entries_model(es).len() == es.len(),
        forall|k: int|
            0 <= k < es.len() ==> entries_model(es)[k] == (es[k].0@, json_model(es[k].1)),
    decreases es.len(),
{
    if es.len() > 0 {
        lemma_entries_model(es.drop_first());
        assert forall|k: int| 0 <= k < es.len() implies entries_model(es)[k] == (
        es[k].0@,
        json_model(es[k].1),
        ) by {
            if k > 0 {
                assert(es.drop_first()[k - 1] == es[k]);
            }
        }
    }
}

impl View for Json {
    type V = JsonModel;

    open spec fn view(&self) -> JsonModel {
        json_model(*self)
    }
}

/// The value under `key` in an entry list: the first entry with that key,
/// if any (the parser keeps keys unique, so a first match is the only
/// one).
pub open spec fn entries_lookup(es: Seq<(Seq<char>, JsonModel)>, key: Seq<char>) -> Option<
    JsonModel,
>
    decreases es.len(),
{
    if es.len() == 0 {
        None
    } else if es[0].0 == key {
        Some(es[0].1)
    } else {
        entries_lookup(es.drop_first(), key)
    }
}

/// The value under `key` of a document: `None` where the document is not
/// an object or the key is absent. This is the lenient access policy: an
/// absent key is an absent value, never an error.
pub open spec fn lookup(m: JsonModel, key: Seq<char>) -> Option<JsonModel> {
    match m {
        JsonModel::Object(es, _) => entries_lookup(es, key),
        _ => None,
    }
}

/// The text a value is stored as: a string's own content, any other
/// value's JSON rendering.
pub open spec fn text_of(m: JsonModel) -> Seq<char> {
    match m {
        JsonModel::Str(s) => s,
        JsonModel::Object(_, dump) => dump,
        JsonModel::Other(t) => t,
    }
}

/// Character-for-character equality of two string slices.
pub fn str_eq(a: &str, b: &str) -> (r: bool)
    ensures
        r == (a@ == b@),
{
    let n = a.unicode_len();
    if n != b.unicode_len() {
        return false;
    }
    let mut i: usize = 0;
    while i < n
        invariant
            n == a@.len(),
            n == b@.len(),
            i <= n,
            forall|j: int| 0 <= j < i ==> a@[j] == b@[j],
        decreases n - i,
    {
        if a.get_char(i) != b.get_char(i) {
            return false;
        }
        i = i + 1;
    }
    proof {
        assert(a@ =~= b@);
    }
    true
}

impl Json {
    /// The value under `key`, where this document is an object holding
    /// that key.
    pub fn get_key<'a>(&'a self, key: &str) -> (r: Option<&'a Json>)
        ensures
            match r {
                Some(v) => lookup(self@, key@) == Some(v@),
                None => lookup(self@, key@) is None,
            },
    {
        match self {
            Json::Object(entries, _) => {
                let ghost es: Seq<(Seq<char>, JsonModel)> = self@->Object_0;
                proof {
                    lemma_entries_model(entries@);
                    assert(es.skip(0) =~= es);
                }
                let n = entries.len();
                let mut i: usize = 0;
                while i < n
                    invariant
                        n == entries@.len(),
                        i <= n,
                        es == self@->Object_0,
                        self@ is Object,
                        es.len() == n,
                        forall|k: int|
                            0 <= k < es.len() ==> es[k] == (
                            entries@[k].0@,
                            json_model(entries@[k].1),
                            ),
                        entries_lookup(es, key@) == entries_lookup(es.skip(i as int), key@),
                    decreases n - i,
                {
                    let pair = &entries[i];
                    if str_eq(pair.0.as_str(), key) {
                        proof {
                            assert(es.skip(i as int)[0] == es[i as int]);
                            assert(entries_lookup(es.skip(i as int), key@) == Some(es[i as int].1));
                        }
                        return Some(&pair.1);
                    }
                    proof {
                        assert(es.skip(i as int).drop_first() =~= es.skip(i as int + 1));
                        assert(es.skip(i as int)[0].0 == entries@[i as int].0@);
                    }
                    i = i + 1;
                }
                proof {
                    assert(es.skip(n as int) =~= Seq::<(Seq<char>, JsonModel)>::empty());
                }
                None
            },
            _ => None,
        }
    }

    /// The content of this value, where it is a JSON string.
    pub fn as_text<'a>(&'a self) -> (r: Option<&'a String>)
        ensures
            match r {
                Some(s) => self@ == JsonModel::Str(s@),
                None => !(self@ is Str),
            },
    {
        match self {
            Json::Str(s) => Some(s),
            _ => None,
        }
    }

    /// The text this value is stored as; see `text_of`.
    pub fn stringify(&self) -> (r: String)
        ensures
            r@ == text_of(self@),
    {
        match self {
            Json::Str(s) => s.clone(),
            Json::Object(_, dump) => dump.clone(),
            Json::Other(t) => t.clone(),
        }
    }
}

#[verifier::external_type_specification]
#[verifier::external_body]
pub struct ExJsonValue(json::JsonValue);

/// The document a payload parses to, reduced to the tree above; `None`
/// where the payload is not valid JSON. What the parser accepts, and the
/// document it yields, are functions of the characters alone.
pub uninterp spec fn json_doc(s: Seq<char>) -> Option<JsonModel>;

/// Relies on json::JsonValue: `entries` walks an object's entries in
/// document order, `dump` renders a value back as JSON text, and the
/// `Display` rendering of a string is its bare content, of null, booleans
/// and numbers their literals, of arrays and objects the JSON text.
#[verifier::external_body]
fn convert(v: &json::JsonValue) -> Json {
    match v {
        json::JsonValue::Short(s) => Json::Str(s.as_str().to_string()),
        json::JsonValue::String(s) => Json::Str(s.clone()),
        json::JsonValue::Object(_) => Json::Object(
            v.entries().map(|(k, c)| (k.to_string(), convert(c))).collect(),
            v.dump(),
        ),
        _ => Json::Other(v.to_string()),
    }
}

/// Relies on json::parse: it accepts a payload exactly when the payload
/// is valid JSON, and the value it yields, reduced by `convert`, is the
/// payload's document.
#[verifier::external_body]
pub(crate) fn parse_json(payload: &str) -> (r: Option<Json>)
    ensures
        r is Some <==> json_doc(payload@) is Some,
        r matches Some(d) ==> Some(d@) == json_doc(payload@),
{
    match json::parse(payload) {
        Ok(v) => Some(convert(&v)),
        Err(_) => None,
    }
}

} // verus!
