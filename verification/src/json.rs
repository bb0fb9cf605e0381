//! JSON values as the protocol reads and writes them.

use vstd::prelude::*;
use crate::text;

verus! {

/// `serde_json::Value`, carried through without being looked into.
#[verifier::external_type_specification]
#[verifier::external_body]
pub struct ExValue(serde_json::Value);

/// `serde_json::Value::clone`: the copy is the value that was copied.
pub assume_specification[ <serde_json::Value as Clone>::clone ](v: &serde_json::Value) -> (res:
    serde_json::Value)
    ensures
        res == *v,
;

/// A JSON value. `Other` carries what the protocol neither reads nor writes:
/// `null` and the numbers that are not unsigned integers.
pub enum Json {
    Bool(bool),
    Number(u64),
    Text(String),
    Array(Vec<Json>),
    Object(Vec<(String, Json)>),
    Other(serde_json::Value),
}

/// What a [`Json`] value stands for.
pub enum JsonView {
    Bool(bool),
    Number(nat),
    Text(Seq<char>),
    Array(Seq<JsonView>),
    Object(Map<Seq<char>, JsonView>),
    Other(serde_json::Value),
}

impl Json {
    /// The value this stands for.
    pub open spec fn view(&self) -> JsonView
        decreases self,
    {
        match *self {
            Json::Bool(b) => JsonView::Bool(b),
            Json::Number(n) => JsonView::Number(n as nat),
            Json::Text(s) => JsonView::Text(s@),
            Json::Array(items) => JsonView::Array(Json::items_view(items@)),
            Json::Object(fields) => JsonView::Object(Json::fields_view(fields@)),
            Json::Other(v) => JsonView::Other(v),
        }
    }

    /// The values of an array, in order.
    pub open spec fn items_view(items: Seq<Json>) -> Seq<JsonView>
        decreases items,
    {
        if items.len() == 0 {
            Seq::empty()
        } else {
            Json::items_view(items.drop_last()).push(items.last().view())
        }
    }

    /// The fields of an object by name; where a name occurs twice, the later
    /// field counts.
    pub open spec fn fields_view(fields: Seq<(String, Json)>) -> Map<Seq<char>, JsonView>
        decreases fields,
    {
        if fields.len() == 0 {
            Map::empty()
        } else {
            Json::fields_view(fields.drop_last()).insert(
                fields.last().0@,
                fields.last().1.view(),
            )
        }
    }

    /// The text of a string value, `None` for any other value.
    pub fn as_str(&self) -> (res: Option<&str>)
        ensures
            match res {
                Some(s) => self.view() == JsonView::Text(s@),
                None => !(self.view() is Text),
            },
    {
        match self {
            Json::Text(s) => Some(s.as_str()),
            _ => None,
        }
    }

    /// The truth value of a boolean, `None` for any other value.
    pub fn as_bool(&self) -> (res: Option<bool>)
        ensures
            match res {
                Some(b) => self.view() == JsonView::Bool(b),
                None => !(self.view() is Bool),
            },
    {
        match self {
            Json::Bool(b) => Some(*b),
            _ => None,
        }
    }

    /// The items of an array, `None` for any other value.
    pub fn as_array(&self) -> (res: Option<&Vec<Json>>)
        ensures
            match res {
                Some(items) => self.view() == JsonView::Array(Json::items_view(items@)),
                None => !(self.view() is Array),
            },
    {
        match self {
            Json::Array(items) => Some(items),
            _ => None,
        }
    }

    /// A string value.
    pub fn text(s: &str) -> (res: Json)
        ensures
            res.view() == JsonView::Text(s@),
    {
        Json::Text(s.to_string())
    }

    /// The array of the given strings, in order.
    pub fn text_array(items: &Vec<String>) -> (res: Json)
        ensures
            res.view() == JsonView::Array(
                items@.map_values(|s: String| JsonView::Text(s@)),
            ),
    {
        let ghost as_text = |s: String| JsonView::Text(s@);
        let mut values: Vec<Json> = Vec::new();
        let mut i: usize = 0;
        while i < items.len()
            invariant
                i <= items.len(),
                as_text == (|s: String| JsonView::Text(s@)),
                Json::items_view(values@) == items@.take(i as int).map_values(as_text),
            decreases items.len() - i,
        {
            let ghost before = values@;
            values.push(Json::text(items[i].as_str()));
            proof {
                assert(values@.drop_last() =~= before);
                assert(items@.take(i + 1).map_values(as_text) =~= items@.take(
                    i as int,
                ).map_values(as_text).push(as_text(items@[i as int])));
            }
            i += 1;
        }
        assert(items@.take(items.len() as int) =~= items@);
        Json::Array(values)
    }

    /// Item `i` of an array view is the view of item `i`.
    pub proof fn lemma_items_view(items: Seq<Json>)
        ensures
            Json::items_view(items).len() == items.len(),
            forall|i: int|
                0 <= i < items.len() ==> #[trigger] Json::items_view(items)[i] == items[i].view(),
        decreases items.len(),
    {
        if items.len() > 0 {
            Json::lemma_items_view(items.drop_last());
        }
    }
}

/// Whether no field name occurs twice.
pub open spec fn distinct_names(fields: Seq<(String, Json)>) -> bool {
    forall|i: int, j: int|
        0 <= i < j < fields.len() ==> #[trigger] fields[i].0@ != #[trigger] fields[j].0@
}

/// The text found under `key`, if there is a field of that name and it holds text.
pub open spec fn text_at(fields: Map<Seq<char>, JsonView>, key: Seq<char>) -> Option<Seq<char>> {
    if fields.dom().contains(key) && fields[key] is Text {
        Some(fields[key]->Text_0)
    } else {
        None
    }
}

/// The text found under `key`, or `default` where there is none.
pub open spec fn text_or(
    fields: Map<Seq<char>, JsonView>,
    key: Seq<char>,
    default: Seq<char>,
) -> Seq<char> {
    match text_at(fields, key) {
        Some(s) => s,
        None => default,
    }
}

/// The boolean found under `key`, or `default` where there is none.
pub open spec fn bool_or(fields: Map<Seq<char>, JsonView>, key: Seq<char>, default: bool) -> bool {
    if fields.dom().contains(key) && fields[key] is Bool {
        fields[key]->Bool_0
    } else {
        default
    }
}

/// The texts among `items`, in order; everything else is left out.
pub open spec fn texts_of(items: Seq<JsonView>) -> Seq<Seq<char>>
    decreases items.len(),
{
    if items.len() == 0 {
        Seq::empty()
    } else {
        let front = texts_of(items.drop_last());
        match items.last() {
            JsonView::Text(s) => front.push(s),
            _ => front,
        }
    }
}

/// An array of nothing but texts keeps every one of them, in order.
pub proof fn law_texts_kept(texts: Seq<Seq<char>>)
    ensures
        texts_of(texts.map_values(|s: Seq<char>| JsonView::Text(s))) == texts,
    decreases texts.len(),
{
    let as_text = |s: Seq<char>| JsonView::Text(s);
    if texts.len() > 0 {
        law_texts_kept(texts.drop_last());
        assert(texts.map_values(as_text).drop_last() =~= texts.drop_last().map_values(as_text));
        assert(texts_of(texts.map_values(as_text)) =~= texts);
    }
}

/// The texts of the array found under `key`; none where there is no array.
pub open spec fn texts_at(fields: Map<Seq<char>, JsonView>, key: Seq<char>) -> Seq<Seq<char>> {
    if fields.dom().contains(key) && fields[key] is Array {
        texts_of(fields[key]->Array_0)
    } else {
        Seq::empty()
    }
}

/// The named values of a message. No name occurs twice.
pub struct Payload {
    fields: Vec<(String, Json)>,
}

/// With distinct names, a name is in the field map exactly where some field
/// has it, and maps to that field's value.
proof fn lemma_fields_view(fields: Seq<(String, Json)>)
    requires
        distinct_names(fields),
    ensures
        forall|i: int|
            #![trigger fields[i]]
            0 <= i < fields.len() ==> Json::fields_view(fields).dom().contains(fields[i].0@)
                && Json::fields_view(fields)[fields[i].0@] == fields[i].1.view(),
        forall|k: Seq<char>| #[trigger]
            Json::fields_view(fields).dom().contains(k) ==> exists|i: int|
                0 <= i < fields.len() && (#[trigger] fields[i]).0@ == k,
    decreases fields.len(),
{
    if fields.len() > 0 {
        let front = fields.drop_last();
        lemma_fields_view(front);
        assert forall|i: int| #![trigger fields[i]] 0 <= i < fields.len() implies Json::fields_view(
            fields,
        ).dom().contains(fields[i].0@) && Json::fields_view(fields)[fields[i].0@]
            == fields[i].1.view() by {
            if i < front.len() {
                assert(front[i] == fields[i]);
                assert(fields[i].0@ != fields[fields.len() - 1].0@);
            }
        }
        assert forall|k: Seq<char>| #[trigger]
            Json::fields_view(fields).dom().contains(k) implies exists|i: int|
            0 <= i < fields.len() && (#[trigger] fields[i]).0@ == k by {
            if k == fields.last().0@ {
                assert(fields[fields.len() - 1].0@ == k);
            } else {
                assert(Json::fields_view(front).dom().contains(k));
                let i = choose|i: int| 0 <= i < front.len() && (#[trigger] front[i]).0@ == k;
                assert(fields[i].0@ == k);
            }
        }
    }
}

impl Payload {
    #[verifier::type_invariant]
    spec fn inv(self) -> bool {
        distinct_names(self.fields@)
    }

    /// The value of each field by name.
    pub closed spec fn view(&self) -> Map<Seq<char>, JsonView> {
        Json::fields_view(self.fields@)
    }

    /// A payload without fields.
    pub fn new() -> (res: Payload)
        ensures
            res.view() == Map::<Seq<char>, JsonView>::empty(),
    {
        Payload { fields: Vec::new() }
    }

    /// Where the field `key` stands, if there is one.
    fn position(fields: &Vec<(String, Json)>, key: &str) -> (res: Option<usize>)
        ensures
            match res {
                Some(i) => i < fields.len() && fields[i as int].0@ == key@,
                None => forall|i: int|
                    0 <= i < fields.len() ==> (#[trigger] fields[i]).0@ != key@,
            },
    {
        let mut i: usize = 0;
        while i < fields.len()
            invariant
                i <= fields.len(),
                forall|j: int| 0 <= j < i ==> (#[trigger] fields[j]).0@ != key@,
            decreases fields.len() - i,
        {
            if text::same_text(fields[i].0.as_str(), key) {
                return Some(i);
            }
            i += 1;
        }
        None
    }

    /// Sets the field `key` to `value`, in place of an earlier value of that name.
    pub fn insert(&mut self, key: &str, value: Json)
        ensures
            final(self).view() == old(self).view().insert(key@, value.view()),
    {
        proof {
            use_type_invariant(&*self);
        }
        let mut fields: Vec<(String, Json)> = Vec::new();
        std::mem::swap(&mut fields, &mut self.fields);
        let ghost before = fields@;
        match Payload::position(&fields, key) {
            Some(i) => {
                fields.set(i, (key.to_string(), value));
                proof {
                    lemma_replace(before, i as int, fields@[i as int]);
                    assert(fields@ =~= before.update(i as int, fields@[i as int]));
                }
            },
            None => {
                fields.push((key.to_string(), value));
                assert(fields@.drop_last() =~= before);
            },
        }
        self.fields = fields;
    }

    /// The value of the field `key`, if there is one.
    pub fn get(&self, key: &str) -> (res: Option<&Json>)
        ensures
            match res {
                Some(v) => self.view().dom().contains(key@) && self.view()[key@] == v.view(),
                None => !self.view().dom().contains(key@),
            },
    {
        proof {
            use_type_invariant(&*self);
            lemma_fields_view(self.fields@);
        }
        match Payload::position(&self.fields, key) {
            Some(i) => Some(&self.fields[i].1),
            None => None,
        }
    }

    /// The fields, each name once.
    pub fn fields(&self) -> (res: &Vec<(String, Json)>)
        ensures
            distinct_names(res@),
            Json::fields_view(res@) == self.view(),
    {
        proof {
            use_type_invariant(&*self);
        }
        &self.fields
    }

    /// The fields as one JSON object.
    pub fn into_object(self) -> (res: Json)
        ensures
            res.view() == JsonView::Object(self.view()),
    {
        Json::Object(self.fields)
    }

    /// The text of the field `key`, or `default` where the field is missing or
    /// holds something else.
    pub fn text_or(&self, key: &str, default: &str) -> (res: String)
        ensures
            res@ == text_or(self.view(), key@, default@),
    {
        match self.get(key) {
            Some(v) => match v.as_str() {
                Some(s) => s.to_string(),
                None => default.to_string(),
            },
            None => default.to_string(),
        }
    }

    /// The boolean of the field `key`, or `default` where the field is missing
    /// or holds something else.
    pub fn bool_or(&self, key: &str, default: bool) -> (res: bool)
        ensures
            res == bool_or(self.view(), key@, default),
    {
        match self.get(key) {
            Some(v) => match v.as_bool() {
                Some(b) => b,
                None => default,
            },
            None => default,
        }
    }

    /// The texts in the array of the field `key`. Items that are not text are
    /// left out; a field that is missing or holds something else has none.
    pub fn texts(&self, key: &str) -> (res: Vec<String>)
        ensures
            res@.map_values(|s: String| s@) == texts_at(self.view(), key@),
    {
        let ghost seen = |s: String| s@;
        let mut texts: Vec<String> = Vec::new();
        assert(texts@.map_values(seen) =~= Seq::<Seq<char>>::empty());
        match self.get(key) {
            Some(v) => match v.as_array() {
                Some(items) => {
                    proof {
                        Json::lemma_items_view(items@);
                    }
                    let ghost views = Json::items_view(items@);
                    let mut i: usize = 0;
                    assert(views.take(0) =~= Seq::empty());
                    while i < items.len()
                        invariant
                            i <= items.len(),
                            views == Json::items_view(items@),
                            views.len() == items.len(),
                            forall|j: int| 0 <= j < items.len() ==> #[trigger] views[j] == items[j].view(),
                            seen == (|s: String| s@),
                            texts@.map_values(seen) == texts_of(views.take(i as int)),
                        decreases items.len() - i,
                    {
                        let ghost before = texts@;
                        proof {
                            assert(views.take(i + 1).drop_last() =~= views.take(i as int));
                            assert(views.take(i + 1).last() == items[i as int].view());
                        }
                        match items[i].as_str() {
                            Some(s) => {
                                texts.push(s.to_string());
                                assert(texts@.map_values(seen) =~= before.map_values(seen).push(s@));
                            },
                            None => {},
                        }
                        i += 1;
                    }
                    assert(views.take(items.len() as int) =~= views);
                },
                None => {},
            },
            None => {},
        }
        texts
    }
}

/// Replacing the field at `i` by one of the same name sets that name in the
/// field map.
proof fn lemma_replace(fields: Seq<(String, Json)>, i: int, field: (String, Json))
    requires
        distinct_names(fields),
        0 <= i < fields.len(),
        field.0@ == fields[i].0@,
    ensures
        distinct_names(fields.update(i, field)),
        Json::fields_view(fields.update(i, field)) == Json::fields_view(fields).insert(
            field.0@,
            field.1.view(),
        ),
    decreases fields.len(),
{
    let updated = fields.update(i, field);
    assert forall|a: int, b: int| 0 <= a < b < updated.len() implies #[trigger] updated[a].0@
        != #[trigger] updated[b].0@ by {
        assert(fields[a].0@ != fields[b].0@);
    }
    if i == fields.len() - 1 {
        assert(updated.drop_last() =~= fields.drop_last());
        assert(Json::fields_view(updated) =~= Json::fields_view(fields).insert(
            field.0@,
            field.1.view(),
        ));
    } else {
        let front = fields.drop_last();
        assert(distinct_names(front)) by {
            assert forall|a: int, b: int| 0 <= a < b < front.len() implies #[trigger] front[a].0@
                != #[trigger] front[b].0@ by {
                assert(fields[a].0@ != fields[b].0@);
            }
        }
        lemma_replace(front, i, field);
        assert(updated.drop_last() =~= front.update(i, field));
        assert(fields[i].0@ != fields[fields.len() - 1].0@);
        assert(Json::fields_view(updated) =~= Json::fields_view(fields).insert(
            field.0@,
            field.1.view(),
        ));
    }
}

/// The view of a value tells its kind and what it holds: an array item by item
/// in order, an object name by name.
pub proof fn law_values_shown(j: Json)
    ensures
        match j {
            Json::Bool(b) => j.view() == JsonView::Bool(b),
            Json::Number(n) => j.view() == JsonView::Number(n as nat),
            Json::Text(s) => j.view() == JsonView::Text(s@),
            Json::Array(items) => {
                &&& j.view() matches JsonView::Array(shown)
                &&& shown.len() == items@.len()
                &&& forall|i: int|
                    0 <= i < items@.len() ==> #[trigger] shown[i] == items@[i].view()
            },
            Json::Object(fields) => {
                &&& j.view() matches JsonView::Object(shown)
                &&& forall|key: Seq<char>| #[trigger]
                    shown.dom().contains(key) <==> exists|i: int|
                        0 <= i < fields@.len() && (#[trigger] fields@[i]).0@ == key
                &&& forall|i: int|
                    0 <= i < fields@.len() && (forall|k: int|
                        i < k < fields@.len() ==> (#[trigger] fields@[k]).0@ != fields@[i].0@)
                        ==> shown[(#[trigger] fields@[i]).0@] == fields@[i].1.view()
            },
            Json::Other(v) => j.view() == JsonView::Other(v),
        },
{
    match j {
        Json::Array(items) => {
            Json::lemma_items_view(items@);
        },
        Json::Object(fields) => {
            law_fields_shown(fields@);
        },
        _ => {},
    }
}

/// The fields of an object by name: every name that occurs and no other, each
/// with the value of its last field.
pub proof fn law_fields_shown(fields: Seq<(String, Json)>)
    ensures
        forall|key: Seq<char>| #[trigger]
            Json::fields_view(fields).dom().contains(key) <==> exists|i: int|
                0 <= i < fields.len() && (#[trigger] fields[i]).0@ == key,
        forall|i: int|
            0 <= i < fields.len() && (forall|k: int|
                i < k < fields.len() ==> (#[trigger] fields[k]).0@ != fields[i].0@)
                ==> Json::fields_view(fields)[(#[trigger] fields[i]).0@] == fields[i].1.view(),
    decreases fields.len(),
{
    if fields.len() > 0 {
        let front = fields.drop_last();
        let last = fields.len() - 1;
        law_fields_shown(front);
        assert forall|key: Seq<char>| #[trigger]
            Json::fields_view(fields).dom().contains(key) <==> exists|i: int|
                0 <= i < fields.len() && (#[trigger] fields[i]).0@ == key by {
            if Json::fields_view(fields).dom().contains(key) {
                if key == fields[last].0@ {
                } else {
                    let i = choose|i: int| 0 <= i < front.len() && (#[trigger] front[i]).0@ == key;
                    assert(fields[i].0@ == key);
                }
            }
            if exists|i: int| 0 <= i < fields.len() && (#[trigger] fields[i]).0@ == key {
                let i = choose|i: int| 0 <= i < fields.len() && (#[trigger] fields[i]).0@ == key;
                if i < last {
                    assert(front[i].0@ == key);
                }
            }
        }
        assert forall|i: int|
            0 <= i < fields.len() && (forall|k: int|
                i < k < fields.len() ==> (#[trigger] fields[k]).0@ != fields[i].0@) implies
            Json::fields_view(fields)[(#[trigger] fields[i]).0@] == fields[i].1.view() by {
            if i < last {
                assert(fields[last].0@ != fields[i].0@);
                assert(front[i] == fields[i]);
                assert forall|k: int| i < k < front.len() implies (#[trigger] front[k]).0@
                    != front[i].0@ by {
                    assert(front[k] == fields[k]);
                }
            }
        }
    }
}

/// What is found under a name: the text, the truth value or the texts of the
/// array that stand there, and the default where nothing of the kind does.
pub proof fn law_found(
    fields: Map<Seq<char>, JsonView>,
    key: Seq<char>,
    text: Seq<char>,
    truth: bool,
)
    ensures
        text_or(fields, key, text) == match fields.get(key) {
            Some(JsonView::Text(s)) => s,
            _ => text,
        },
        bool_or(fields, key, truth) == match fields.get(key) {
            Some(JsonView::Bool(b)) => b,
            _ => truth,
        },
        fields.get(key) matches Some(JsonView::Array(items)) ==> texts_at(fields, key) == texts_of(
            items,
        ),
        !(fields.dom().contains(key) && fields[key] is Array) ==> texts_at(fields, key).len() == 0,
{
}

/// The texts of an array are taken item by item, in order: a text gives itself,
/// anything else gives nothing.
pub proof fn law_texts_taken(front: Seq<JsonView>, item: JsonView, back: Seq<JsonView>)
    ensures
        texts_of(front + back) == texts_of(front) + texts_of(back),
        texts_of(seq![item]) == match item {
            JsonView::Text(s) => seq![s],
            _ => Seq::empty(),
        },
        texts_of(Seq::empty()).len() == 0,
    decreases back.len(),
{
    reveal_with_fuel(texts_of, 2);
    assert(seq![item].drop_last() =~= Seq::empty());
    assert(texts_of(seq![item]) =~= match item {
        JsonView::Text(s) => seq![s],
        _ => Seq::empty(),
    });
    if back.len() == 0 {
        assert(front + back =~= front);
        assert(texts_of(front) + texts_of(back) =~= texts_of(front));
    } else {
        law_texts_taken(front, item, back.drop_last());
        assert((front + back).drop_last() =~= front + back.drop_last());
        assert(texts_of(front + back) =~= texts_of(front) + texts_of(back));
    }
}

} // verus!
