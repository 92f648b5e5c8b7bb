//! JSON documents as the registry reads and writes them.

use vstd::prelude::*;

verus! {

/// What a JSON document says.
///
/// The members of an object are a map: their order carries no meaning.
#[verifier::ext_equal]
pub enum JsonV {
    Null,
    Bool(bool),
    /// A number, as an unsigned integer where it is one that fits.
    Number(Option<u64>),
    Text(Seq<char>),
    Array(Seq<JsonV>),
    Object(Map<Seq<char>, JsonV>),
}

impl JsonV {
    /// The member of an object under `key`.
    pub open spec fn get(self, key: Seq<char>) -> Option<JsonV> {
        match self {
            JsonV::Object(members) => if members.contains_key(key) {
                Some(members[key])
            } else {
                None
            },
            _ => None,
        }
    }

    /// The characters of a string.
    pub open spec fn as_str(self) -> Option<Seq<char>> {
        match self {
            JsonV::Text(text) => Some(text),
            _ => None,
        }
    }

    /// The elements of an array.
    pub open spec fn as_array(self) -> Option<Seq<JsonV>> {
        match self {
            JsonV::Array(items) => Some(items),
            _ => None,
        }
    }

    /// The value of a number that is an unsigned integer.
    pub open spec fn as_u64(self) -> Option<u64> {
        match self {
            JsonV::Number(value) => value,
            _ => None,
        }
    }
}

/// A JSON document.
///
/// A number keeps only its value as an unsigned integer: the registry reads no
/// other. Where an object holds a key twice, the later member counts.
#[derive(Debug, PartialEq, Eq)]
pub enum Json {
    Null,
    Bool(bool),
    Number(Option<u64>),
    Text(String),
    Array(Vec<Json>),
    Object(Vec<(String, Json)>),
}

/// What a row of documents says, one by one.
pub open spec fn items_view(items: Seq<Json>) -> Seq<JsonV>
    decreases items,
{
    if items.len() == 0 {
        Seq::empty()
    } else {
        items_view(items.drop_last()).push(items.last().view())
    }
}

/// The map that a row of members makes, in which a later member replaces an
/// earlier one under the same key.
pub open spec fn members_view(members: Seq<(String, Json)>) -> Map<Seq<char>, JsonV>
    decreases members,
{
    if members.len() == 0 {
        Map::empty()
    } else {
        members_view(members.drop_last()).insert(members.last().0@, members.last().1.view())
    }
}

/// `items_view` keeps the length and the places of a row.
pub proof fn lemma_items_view(items: Seq<Json>)
    ensures
        items_view(items).len() == items.len(),
        forall|i: int| 0 <= i < items.len() ==> #[trigger] items_view(items)[i] == items[i]@,
    decreases items.len(),
{
    if items.len() > 0 {
        lemma_items_view(items.drop_last());
        assert forall|i: int| 0 <= i < items.len() implies #[trigger] items_view(items)[i]
            == items[i]@ by {
            if i < items.len() - 1 {
                assert(items.drop_last()[i] == items[i]);
            }
        }
    }
}

impl Json {
    pub open spec fn view(&self) -> JsonV
        decreases self,
    {
        match self {
            Json::Null => JsonV::Null,
            Json::Bool(b) => JsonV::Bool(*b),
            Json::Number(n) => JsonV::Number(*n),
            Json::Text(s) => JsonV::Text(s@),
            Json::Array(items) => JsonV::Array(items_view(items@)),
            Json::Object(members) => JsonV::Object(members_view(members@)),
        }
    }

    /// The member of an object under `key`; nothing for a document of another
    /// kind or an object without that key.
    pub fn get(&self, key: &str) -> (member: Option<&Json>)
        ensures
            match member {
                Some(json) => self@.get(key@) == Some(json@),
                None => self@.get(key@) is None,
            },
    {
        match self {
            Json::Object(members) => {
                let wanted = key.to_owned();
                let mut rest: usize = members.len();
                assert(members@.take(rest as int) =~= members@);
                while rest > 0
                    invariant
                        rest <= members.len(),
                        wanted@ == key@,
                        self@.get(key@) == JsonV::Object(
                            members_view(members@.take(rest as int)),
                        ).get(key@),
                    decreases rest,
                {
                    rest = rest - 1;
                    let ghost read = members@.take(rest + 1);
                    assert(read.drop_last() =~= members@.take(rest as int));
                    if members[rest].0 == wanted {
                        return Some(&members[rest].1);
                    }
                }
                None
            },
            _ => None,
        }
    }

    /// The characters of a string; nothing for a document of another kind.
    pub fn as_str(&self) -> (text: Option<&str>)
        ensures
            match text {
                Some(text) => self@.as_str() == Some(text@),
                None => self@.as_str() is None,
            },
    {
        match self {
            Json::Text(text) => Some(text.as_str()),
            _ => None,
        }
    }

    /// The elements of an array; nothing for a document of another kind.
    pub fn as_array(&self) -> (items: Option<&Vec<Json>>)
        ensures
            match items {
                Some(items) => self@.as_array() == Some(items_view(items@)),
                None => self@.as_array() is None,
            },
    {
        match self {
            Json::Array(items) => Some(items),
            _ => None,
        }
    }

    /// The value of a number that is an unsigned integer; nothing for any other
    /// document.
    pub fn as_u64(&self) -> (value: Option<u64>)
        ensures
            value == self@.as_u64(),
    {
        match self {
            Json::Number(value) => *value,
            _ => None,
        }
    }
}

/// Whether two strings hold the same characters.
pub fn str_eq(left: &str, right: &str) -> (same: bool)
    ensures
        same == (left@ == right@),
{
    left.to_owned() == right.to_owned()
}

/// How deeply arrays and objects may lie inside each other in JSON text that
/// `serde_json` reads.
pub open spec fn nesting() -> nat {
    127
}

/// Whether arrays and objects lie at most `depth` deep inside each other and every
/// number is an unsigned integer, so that the document says all there is to write.
pub open spec fn writable(document: JsonV, depth: nat) -> bool
    decreases depth,
{
    match document {
        JsonV::Number(value) => value is Some,
        JsonV::Array(items) => depth > 0 && forall|i: int|
            0 <= i < items.len() ==> writable(#[trigger] items[i], (depth - 1) as nat),
        JsonV::Object(members) => depth > 0 && forall|key: Seq<char>|
            members.contains_key(key) ==> writable(#[trigger] members[key], (depth - 1) as nat),
        _ => true,
    }
}

/// A document that may be written at one depth may be written at any greater one.
pub proof fn lemma_writable_deeper(document: JsonV, depth: nat, deeper: nat)
    requires
        writable(document, depth),
        depth <= deeper,
    ensures
        writable(document, deeper),
    decreases depth,
{
    match document {
        JsonV::Array(items) => {
            assert forall|i: int| 0 <= i < items.len() implies writable(
                #[trigger] items[i],
                (deeper - 1) as nat,
            ) by {
                lemma_writable_deeper(items[i], (depth - 1) as nat, (deeper - 1) as nat);
            }
        },
        JsonV::Object(members) => {
            assert forall|key: Seq<char>| members.contains_key(key) implies writable(
                #[trigger] members[key],
                (deeper - 1) as nat,
            ) by {
                lemma_writable_deeper(members[key], (depth - 1) as nat, (deeper - 1) as nat);
            }
        },
        _ => {},
    }
}

/// `serde_json::Value`, a document as that crate holds it.
#[verifier::external_type_specification]
#[verifier::external_body]
pub struct ExValue(serde_json::Value);

/// `serde_json::Map`, the members of an object as that crate holds them.
#[verifier::external_type_specification]
#[verifier::external_body]
#[verifier::reject_recursive_types(K)]
#[verifier::reject_recursive_types(V)]
pub struct ExMap<K, V>(serde_json::Map<K, V>);

/// `serde_json::Error`, of which only the presence counts.
#[verifier::external_type_specification]
#[verifier::external_body]
pub struct ExError(serde_json::Error);

/// What a `serde_json::Value` holds.
pub uninterp spec fn json_tree(value: serde_json::Value) -> JsonV;

/// The members that a `serde_json::Map` holds.
pub uninterp spec fn json_members(
    members: serde_json::Map<String, serde_json::Value>,
) -> Map<Seq<char>, JsonV>;

/// What `serde_json::from_slice` reads from JSON text, nothing where it fails.
pub uninterp spec fn json_text(text: Seq<u8>) -> Option<JsonV>;

/// The text that `serde_json::to_vec` writes for a document whose numbers are all
/// unsigned integers.
pub uninterp spec fn json_bytes(document: JsonV) -> Seq<u8>;

/// Calls `serde_json::from_slice` for a `serde_json::Value`. Whether it succeeds,
/// and what the value says, depends on the text alone.
#[verifier::external_body]
fn from_slice(text: &[u8]) -> (result: Result<serde_json::Value, serde_json::Error>)
    ensures
        match result {
            Ok(value) => json_text(text@) == Some(json_tree(value)),
            Err(_) => json_text(text@) is None,
        },
{
    serde_json::from_slice(text)
}

/// Whether a document is an array.
pub open spec fn is_array(document: Option<JsonV>) -> bool {
    document matches Some(JsonV::Array(_))
}

/// What the error says that `serde_json::from_slice` gives for text that is not the
/// JSON text of an array.
pub uninterp spec fn array_failure(text: Seq<u8>) -> Seq<char>;

/// Calls `serde_json::from_slice` for a `Vec<serde_json::Value>` and hands out what the
/// error says, if there is one. There is one just where the text read as a
/// `serde_json::Value` is no array, and what it says depends on the text alone.
#[verifier::external_body]
pub(crate) fn array_error(text: &[u8]) -> (message: Option<String>)
    ensures
        message is None <==> is_array(json_text(text@)),
        message is Some ==> message->0@ == array_failure(text@),
{
    match serde_json::from_slice::<Vec<serde_json::Value>>(text) {
        Ok(_) => None,
        Err(e) => Some(e.to_string()),
    }
}

/// Calls `serde_json::to_vec` for a `serde_json::Value`. It succeeds, what it
/// writes depends on what the value says alone (a `serde_json::Map` hands its
/// members out in the order of their keys), and `serde_json::from_slice` reads the
/// same document back.
#[verifier::external_body]
fn to_vec(value: &serde_json::Value) -> (result: Result<Vec<u8>, serde_json::Error>)
    requires
        writable(json_tree(*value), nesting()),
    ensures
        result is Ok,
        result->Ok_0@ == json_bytes(json_tree(*value)),
        json_text(result->Ok_0@) == Some(json_tree(*value)),
{
    serde_json::to_vec(value)
}

/// A `serde_json::Value` taken apart, down to the values right inside it.
enum Layer<'a> {
    Null,
    Bool(bool),
    Number(Option<u64>),
    Text(&'a String),
    Array(&'a Vec<serde_json::Value>),
    Object(Vec<(&'a String, &'a serde_json::Value)>),
}

/// What a row of values says, one by one.
spec fn tree_items(values: Seq<serde_json::Value>) -> Seq<JsonV> {
    values.map_values(|value: serde_json::Value| json_tree(value))
}

/// The map that a row of members makes.
spec fn tree_members(members: Seq<(&String, &serde_json::Value)>) -> Map<Seq<char>, JsonV>
    decreases members.len(),
{
    if members.len() == 0 {
        Map::empty()
    } else {
        tree_members(members.drop_last()).insert(
            members.last().0@,
            json_tree(*members.last().1),
        )
    }
}

impl Layer<'_> {
    /// What the value that was taken apart says.
    spec fn view(&self) -> JsonV {
        match self {
            Layer::Null => JsonV::Null,
            Layer::Bool(b) => JsonV::Bool(*b),
            Layer::Number(n) => JsonV::Number(*n),
            Layer::Text(s) => JsonV::Text(s@),
            Layer::Array(items) => JsonV::Array(tree_items(items@)),
            Layer::Object(members) => JsonV::Object(tree_members(members@)),
        }
    }
}

/// Whether no two members of an object stand under the same key.
spec fn distinct_keys(members: Seq<(&String, &serde_json::Value)>) -> bool {
    forall|i: int, j: int|
        0 <= i < j < members.len() ==> (#[trigger] members[i]).0@ != (#[trigger] members[j]).0@
}

/// The map that a row of members makes is finite and holds each member whose key
/// no later one has.
proof fn lemma_tree_members(members: Seq<(&String, &serde_json::Value)>, at: int)
    requires
        0 <= at < members.len(),
        forall|i: int| at < i < members.len() ==> (#[trigger] members[i]).0@ != members[at].0@,
    ensures
        tree_members(members).dom().finite(),
        tree_members(members).contains_key(members[at].0@),
        tree_members(members)[members[at].0@] == json_tree(*members[at].1),
    decreases members.len(),
{
    let before = members.drop_last();
    if at < members.len() - 1 {
        lemma_tree_members(before, at);
    } else if before.len() > 0 {
        lemma_tree_members(before, before.len() - 1);
    }
}

/// Tells the variants of `serde_json::Value` apart and hands out what each holds: of
/// a number what `serde_json::Number::as_u64` returns, of an object the entries
/// that `serde_json::Map::iter` walks, each key once.
#[verifier::external_body]
fn layer_of(value: &serde_json::Value) -> (layer: Layer<'_>)
    ensures
        layer@ == json_tree(*value),
        layer is Object ==> distinct_keys(layer->Object_0@),
{
    match value {
        serde_json::Value::Null => Layer::Null,
        serde_json::Value::Bool(b) => Layer::Bool(*b),
        serde_json::Value::Number(n) => Layer::Number(n.as_u64()),
        serde_json::Value::String(s) => Layer::Text(s),
        serde_json::Value::Array(items) => Layer::Array(items),
        serde_json::Value::Object(members) => Layer::Object(members.iter().collect()),
    }
}

/// Takes a `serde_json::Value` apart, however deep it is.
fn from_value(value: &serde_json::Value) -> (json: Json)
    ensures
        json@ == json_tree(*value),
    decreases json_tree(*value),
{
    match layer_of(value) {
        Layer::Null => Json::Null,
        Layer::Bool(b) => Json::Bool(b),
        Layer::Number(n) => Json::Number(n),
        Layer::Text(s) => Json::Text(s.clone()),
        Layer::Array(items) => {
            let mut list: Vec<Json> = Vec::new();
            for i in 0..items.len()
                invariant
                    json_tree(*value) == JsonV::Array(tree_items(items@)),
                    list.len() == i,
                    forall|j: int| 0 <= j < i ==> #[trigger] list[j]@ == json_tree(items[j]),
            {
                assert(decreases_to!(json_tree(*value) => json_tree(*value)->Array_0));
                assert(decreases_to!(tree_items(items@) => tree_items(items@)[i as int]));
                list.push(from_value(&items[i]));
            }
            proof {
                lemma_items_view(list@);
                assert(items_view(list@) =~= tree_items(items@));
            }
            Json::Array(list)
        },
        Layer::Object(members) => {
            let mut list: Vec<(String, Json)> = Vec::new();
            for i in 0..members.len()
                invariant
                    json_tree(*value) == JsonV::Object(tree_members(members@)),
                    distinct_keys(members@),
                    members_view(list@) == tree_members(members@.take(i as int)),
            {
                let ghost before = list@;
                proof {
                    lemma_tree_members(members@, i as int);
                    let inside = json_tree(*value)->Object_0;
                    assert(decreases_to!(inside => inside[members@[i as int].0@]));
                }
                list.push((members[i].0.clone(), from_value(members[i].1)));
                assert(list@.drop_last() =~= before);
                assert(members@.take(i + 1).drop_last() =~= members@.take(i as int));
            }
            assert(members@.take(members.len() as int) =~= members@);
            Json::Object(list)
        },
    }
}

/// What a `serde_json::Value` is put together from.
enum Parts {
    Null,
    Bool(bool),
    Number(u64),
    Text(String),
    Array(Vec<serde_json::Value>),
    Object(serde_json::Map<String, serde_json::Value>),
}

impl Parts {
    /// What the value that is put together says.
    spec fn view(&self) -> JsonV {
        match self {
            Parts::Null => JsonV::Null,
            Parts::Bool(b) => JsonV::Bool(*b),
            Parts::Number(n) => JsonV::Number(Some(*n)),
            Parts::Text(s) => JsonV::Text(s@),
            Parts::Array(items) => JsonV::Array(tree_items(items@)),
            Parts::Object(members) => JsonV::Object(json_members(*members)),
        }
    }
}

/// Makes a `serde_json::Value` of the variant that holds the parts; of a number by
/// its `From<u64>`.
#[verifier::external_body]
fn value_of(parts: Parts) -> (value: serde_json::Value)
    ensures
        json_tree(value) == parts@,
{
    match parts {
        Parts::Null => serde_json::Value::Null,
        Parts::Bool(b) => serde_json::Value::Bool(b),
        Parts::Number(n) => serde_json::Value::from(n),
        Parts::Text(s) => serde_json::Value::String(s),
        Parts::Array(items) => serde_json::Value::Array(items),
        Parts::Object(members) => serde_json::Value::Object(members),
    }
}

/// Calls `serde_json::Map::new`, which makes a map without members.
#[verifier::external_body]
fn no_members() -> (members: serde_json::Map<String, serde_json::Value>)
    ensures
        json_members(members) == (Map::<Seq<char>, JsonV>::empty()),
{
    serde_json::Map::new()
}

/// Calls `serde_json::Map::insert`, which adds a member or, where the key is there,
/// replaces its value.
#[verifier::external_body]
fn insert_member(
    members: &mut serde_json::Map<String, serde_json::Value>,
    key: String,
    value: serde_json::Value,
)
    ensures
        json_members(*final(members)) == json_members(*old(members)).insert(
            key@,
            json_tree(value),
        ),
{
    members.insert(key, value);
}

/// Whether a value says what a document does, unless the document may not be written
/// at any depth.
spec fn renders(value: JsonV, document: JsonV) -> bool {
    forall|depth: nat| #[trigger] writable(document, depth) ==> value == document
}

/// Whether the members of two objects have the same keys, and each value says what
/// the member of the document does.
spec fn renders_members(
    values: Map<Seq<char>, JsonV>,
    documents: Map<Seq<char>, JsonV>,
) -> bool {
    &&& values.dom() == documents.dom()
    &&& forall|key: Seq<char>|
        documents.contains_key(key) ==> renders(#[trigger] values[key], documents[key])
}

/// Elements that say what those of a document do make an array that does.
proof fn lemma_renders_items(values: Seq<JsonV>, documents: Seq<JsonV>)
    requires
        values.len() == documents.len(),
        forall|i: int|
            0 <= i < documents.len() ==> renders(#[trigger] values[i], documents[i]),
    ensures
        renders(JsonV::Array(values), JsonV::Array(documents)),
{
    assert forall|depth: nat| #[trigger] writable(JsonV::Array(documents), depth) implies values
        == documents by {
        assert(JsonV::Array(documents)->Array_0 == documents);
        assert forall|i: int| 0 <= i < documents.len() implies #[trigger] values[i]
            == documents[i] by {
            assert(writable(documents[i], (depth - 1) as nat));
        }
    }
}

/// Members that say what those of a document do make an object that does.
proof fn lemma_renders_members(
    values: Map<Seq<char>, JsonV>,
    documents: Map<Seq<char>, JsonV>,
)
    requires
        renders_members(values, documents),
    ensures
        renders(JsonV::Object(values), JsonV::Object(documents)),
{
    assert forall|depth: nat| #[trigger] writable(JsonV::Object(documents), depth) implies values
        == documents by {
        assert(JsonV::Object(documents)->Object_0 == documents);
        assert forall|key: Seq<char>| documents.contains_key(key) implies #[trigger] values[key]
            == documents[key] by {
            assert(writable(documents[key], (depth - 1) as nat));
        }
    }
}

/// Puts a `serde_json::Value` together. A number that is no unsigned integer becomes
/// null.
fn to_value(json: &Json) -> (value: serde_json::Value)
    ensures
        renders(json_tree(value), json@),
    decreases json,
{
    match json {
        Json::Null => value_of(Parts::Null),
        Json::Bool(b) => value_of(Parts::Bool(*b)),
        Json::Number(Some(n)) => value_of(Parts::Number(*n)),
        Json::Number(None) => value_of(Parts::Null),
        Json::Text(s) => value_of(Parts::Text(s.clone())),
        Json::Array(items) => {
            let mut list: Vec<serde_json::Value> = Vec::new();
            for i in 0..items.len()
                invariant
                    *json == Json::Array(*items),
                    list.len() == i,
                    forall|j: int| 0 <= j < i ==> renders(json_tree(#[trigger] list[j]), items[j]@),
            {
                assert(decreases_to!(json => json->Array_0));
                list.push(to_value(&items[i]));
            }
            proof {
                lemma_items_view(items@);
                lemma_renders_items(tree_items(list@), items_view(items@));
            }
            value_of(Parts::Array(list))
        },
        Json::Object(members) => {
            let mut map = no_members();
            for i in 0..members.len()
                invariant
                    *json == Json::Object(*members),
                    renders_members(json_members(map), members_view(members@.take(i as int))),
            {
                assert(members@.take(i + 1).drop_last() =~= members@.take(i as int));
                assert(decreases_to!(json => json->Object_0));
                insert_member(&mut map, members[i].0.clone(), to_value(&members[i].1));
            }
            proof {
                assert(members@.take(members.len() as int) =~= members@);
                lemma_renders_members(json_members(map), members_view(members@));
            }
            value_of(Parts::Object(map))
        },
    }
}

/// Reads a JSON document; nothing where the text is not JSON.
pub fn parse_json(text: &[u8]) -> (json: Option<Json>)
    ensures
        match json {
            Some(json) => json_text(text@) == Some(json@),
            None => json_text(text@) is None,
        },
{
    match from_slice(text) {
        Ok(value) => Some(from_value(&value)),
        Err(_) => None,
    }
}

/// Writes a JSON document. Reading the text gives the document back.
pub fn write_json(json: &Json) -> (text: Vec<u8>)
    requires
        writable(json@, nesting()),
    ensures
        text@ == json_bytes(json@),
        json_text(text@) == Some(json@),
{
    match to_vec(&to_value(json)) {
        Ok(text) => text,
        Err(_) => Vec::new(),
    }
}

} // verus!
