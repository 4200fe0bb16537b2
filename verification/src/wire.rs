//! Blocks of optional fields, and the JSON objects they are written as.
//!
//! A block is modelled by its field table: one entry per field of the block, in
//! the order of declaration, which is `None` where the field is absent and holds
//! the field's wire name and JSON value where it is present. The block is written
//! as the object whose members are the present entries, in order: an absent field
//! leaves no member behind, not even a `null`.

use vstd::prelude::*;
use crate::decimal::{decimal, signed_text};
use crate::json::{Json, JsonValue};
use crate::views::opt_view;

verus! {

/// A member of a JSON object: its key and its value.
pub type Member = (Seq<char>, JsonValue);

/// One entry of a field table.
pub type Field = Option<Member>;

/// A record of optional fields with a field table.
pub trait Block {
    /// The field table of this block.
    spec fn fields(&self) -> Seq<Field>;
}

/// A block in wire form, ready to be written as a JSON object.
pub trait WireBlock: Block {
    /// The JSON object of this block: a member for each field that is present.
    fn to_json(&self) -> (doc: Json)
        ensures
            doc@ == object_of(self.fields()),
    ;
}

/// The members that a field table contributes: the entries that are present, in
/// the order of the table.
pub open spec fn present(fields: Seq<Field>) -> Seq<Member> {
    fields.filter(|f: Field| f is Some).map_values(|f: Field| f->0)
}

/// The JSON object that a field table is written as.
pub open spec fn object_of(fields: Seq<Field>) -> JsonValue {
    JsonValue::Object(present(fields))
}

/// The table entry of a field that holds any JSON value.
pub open spec fn json_field(name: Seq<char>, value: Option<JsonValue>) -> Field {
    match value {
        Some(v) => Some((name, v)),
        None => None,
    }
}

/// The table entry of a text field: the text itself, as a JSON string.
pub open spec fn text_field(name: Seq<char>, value: Option<Seq<char>>) -> Field {
    match value {
        Some(v) => Some((name, JsonValue::String(v))),
        None => None,
    }
}

/// The table entry of a boolean field.
pub open spec fn flag_field(name: Seq<char>, value: Option<bool>) -> Field {
    match value {
        Some(v) => Some((name, JsonValue::Bool(v))),
        None => None,
    }
}

/// The JSON array of a list of texts.
pub open spec fn text_array(items: Seq<String>) -> JsonValue {
    JsonValue::Array(Seq::new(items.len(), |i: int| JsonValue::String(items[i]@)))
}

/// The table entry of a field that holds a list of texts.
pub open spec fn list_field(name: Seq<char>, value: Option<Seq<String>>) -> Field {
    match value {
        Some(v) => Some((name, text_array(v))),
        None => None,
    }
}

/// The table entry of a field that holds a nested block.
pub open spec fn block_field(name: Seq<char>, value: Option<Seq<Field>>) -> Field {
    match value {
        Some(v) => Some((name, object_of(v))),
        None => None,
    }
}

/// The field table of an optional nested block.
pub open spec fn opt_fields<B: Block>(value: Option<B>) -> Option<Seq<Field>> {
    match value {
        Some(b) => Some(b.fields()),
        None => None,
    }
}

/// A value of a closed set that is written as a fixed token.
pub trait WireToken {
    /// The token of this value.
    spec fn token_text(&self) -> Seq<char>;

    /// The token of this value.
    fn token(&self) -> (t: &'static str)
        ensures
            t@ == self.token_text(),
    ;
}

/// The token of an optional value of a closed set.
pub open spec fn opt_token<E: WireToken>(value: Option<E>) -> Option<Seq<char>> {
    match value {
        Some(e) => Some(e.token_text()),
        None => None,
    }
}

/// The table entry of a field that holds a number, given as its literal.
pub open spec fn number_field(name: Seq<char>, value: Option<Seq<char>>) -> Field {
    match value {
        Some(v) => Some((name, JsonValue::Number(v))),
        None => None,
    }
}

/// The table entry of an integer field: the integer in decimal notation.
pub open spec fn int_field(name: Seq<char>, value: Option<i32>) -> Field {
    match value {
        Some(v) => Some((name, JsonValue::Number(decimal(v as int)))),
        None => None,
    }
}

/// Borrows an optional text.
pub fn borrow_text(value: &Option<String>) -> (r: Option<&str>)
    ensures
        opt_view(r) == opt_view(*value),
{
    match value {
        Some(v) => Some(v.as_str()),
        None => None,
    }
}

/// Borrows an optional list.
pub fn borrow_list(value: &Option<Vec<String>>) -> (r: Option<&[String]>)
    ensures
        opt_view(r) == opt_view(*value),
{
    match value {
        Some(v) => Some(v.as_slice()),
        None => None,
    }
}

/// Borrows an optional JSON value.
pub fn borrow_json(value: &Option<Json>) -> (r: Option<&Json>)
    ensures
        opt_view(r) == opt_view(*value),
{
    match value {
        Some(v) => Some(v),
        None => None,
    }
}

/// The JSON string of a token.
pub fn token_json<E: WireToken>(value: &E) -> (doc: Json)
    ensures
        doc@ == JsonValue::String(value.token_text()),
{
    Json::String(value.token().to_owned())
}

/// Appending an entry to a table appends its member, if it has one.
pub proof fn lemma_present_push(fields: Seq<Field>, f: Field)
    ensures
        present(fields.push(f)) == match f {
            Some(m) => present(fields).push(m),
            None => present(fields),
        },
{
    let pred = |f: Field| f is Some;
    let get = |f: Field| f->0;
    let longer = fields.push(f);
    assert(longer.drop_last() =~= fields);
    reveal(Seq::filter);
    assert(longer.filter(pred) == if pred(f) {
        fields.filter(pred).push(f)
    } else {
        fields.filter(pred)
    });
    match f {
        Some(m) => {
            assert(fields.filter(pred).push(f).map_values(get) =~= fields.filter(pred).map_values(
                get,
            ).push(m));
        },
        None => {},
    }
}

/// A table in which every entry is absent contributes no member.
pub proof fn lemma_present_absent(fields: Seq<Field>)
    requires
        forall|i: int| 0 <= i < fields.len() ==> fields[i] is None,
    ensures
        present(fields) == Seq::<Member>::empty(),
    decreases fields.len(),
{
    if fields.len() == 0 {
        reveal(Seq::filter);
        assert(present(fields) =~= Seq::<Member>::empty());
    } else {
        lemma_present_absent(fields.drop_last());
        lemma_present_push(fields.drop_last(), fields.last());
        assert(fields.drop_last().push(fields.last()) =~= fields);
    }
}

/// The members that a table contributes are its entries that are present.
pub proof fn lemma_present_members(fields: Seq<Field>)
    ensures
        forall|m: Member| #[trigger] present(fields).contains(m) <==> fields.contains(Some(m)),
    decreases fields.len(),
{
    if fields.len() == 0 {
        reveal(Seq::filter);
        assert(present(fields) =~= Seq::<Member>::empty());
    } else {
        let shorter = fields.drop_last();
        let last = fields.last();
        lemma_present_members(shorter);
        lemma_present_push(shorter, last);
        assert(shorter.push(last) =~= fields);
        assert forall|m: Member| #[trigger] present(fields).contains(m) <==> fields.contains(
            Some(m),
        ) by {
            let n = present(shorter).len() as int;
            if present(fields).contains(m) {
                let i = choose|i: int| 0 <= i < present(fields).len() && present(fields)[i] == m;
                if i < n {
                    assert(present(shorter)[i] == m);
                    assert(present(shorter).contains(m));
                    assert(shorter.contains(Some(m)));
                    let k = choose|k: int| 0 <= k < shorter.len() && shorter[k] == Some(m);
                    assert(fields[k] == Some(m));
                } else {
                    assert(last == Some(m));
                    assert(fields[fields.len() - 1] == Some(m));
                }
            }
            if fields.contains(Some(m)) {
                let k = choose|k: int| 0 <= k < fields.len() && fields[k] == Some(m);
                if k < shorter.len() {
                    assert(shorter[k] == Some(m));
                    assert(shorter.contains(Some(m)));
                    assert(present(shorter).contains(m));
                    let i = choose|i: int| 0 <= i < n && present(shorter)[i] == m;
                    assert(present(fields)[i] == m);
                } else {
                    assert(last == Some(m));
                    assert(present(fields)[n] == m);
                }
            }
        }
    }
}

/// Whether one of `members` is named `key`.
pub open spec fn has_member(members: Seq<Member>, key: Seq<char>) -> bool {
    exists|i: int| 0 <= i < members.len() && (#[trigger] members[i]).0 == key
}

/// A block with every field absent is written as the empty object.
pub proof fn law_no_field_no_member<B: Block>(block: B)
    requires
        forall|i: int| 0 <= i < block.fields().len() ==> block.fields()[i] is None,
    ensures
        object_of(block.fields()) == JsonValue::Object(Seq::empty()),
{
    lemma_present_absent(block.fields());
}

/// A block with one field present and every other field absent is written as
/// the object with one member: that field's name and its value as it is.
pub proof fn law_single_field<B: Block>(block: B, i: int)
    requires
        0 <= i < block.fields().len(),
        block.fields()[i] is Some,
        forall|j: int| 0 <= j < block.fields().len() && j != i ==> block.fields()[j] is None,
    ensures
        object_of(block.fields()) == JsonValue::Object(seq![block.fields()[i]->0]),
{
    let fields = block.fields();
    let before = fields.take(i);
    let after = fields.skip(i + 1);
    lemma_present_absent(before);
    lemma_present_push(before, fields[i]);
    lemma_present_append_absent(before.push(fields[i]), after);
    assert(before.push(fields[i]) + after =~= fields);
    assert(Seq::<Member>::empty().push(fields[i]->0) =~= seq![fields[i]->0]);
}

/// Entries that are absent add nothing to a table.
pub proof fn lemma_present_append_absent(fields: Seq<Field>, more: Seq<Field>)
    requires
        forall|i: int| 0 <= i < more.len() ==> more[i] is None,
    ensures
        present(fields + more) == present(fields),
    decreases more.len(),
{
    if more.len() == 0 {
        assert(fields + more =~= fields);
    } else {
        lemma_present_append_absent(fields, more.drop_last());
        lemma_present_push(fields + more.drop_last(), more.last());
        assert((fields + more.drop_last()).push(more.last()) =~= fields + more);
    }
}

/// A field that is absent leaves no member behind: an object has no member of a
/// name that none of the present fields has. A field that is present is a member
/// of the object.
pub proof fn law_absent_in_absent_out<B: Block>(block: B, key: Seq<char>)
    ensures
        (forall|i: int|
            0 <= i < block.fields().len() ==> (#[trigger] block.fields()[i] matches Some(m) ==> m.0
                != key)) ==> !has_member(present(block.fields()), key),
        forall|i: int|
            0 <= i < block.fields().len() && (#[trigger] block.fields()[i]) is Some ==> present(
                block.fields(),
            ).contains(block.fields()[i]->0),
{
    let fields = block.fields();
    lemma_present_members(fields);
    if forall|i: int| 0 <= i < fields.len() ==> (#[trigger] fields[i] matches Some(m) ==> m.0 != key) {
        if has_member(present(fields), key) {
            let i = choose|i: int| 0 <= i < present(fields).len() && (#[trigger] present(fields)[i]).0 == key;
            let m = present(fields)[i];
            assert(present(fields).contains(m));
            let k = choose|k: int| 0 <= k < fields.len() && fields[k] == Some(m);
            assert(fields[k] matches Some(m2) ==> m2.0 != key);
        }
    }
    assert forall|i: int| 0 <= i < fields.len() && (#[trigger] fields[i]) is Some implies present(
        fields,
    ).contains(fields[i]->0) by {
        assert(fields.contains(Some(fields[i]->0)));
    }
}

/// Accumulates the members of a JSON object, one field of a block at a time.
/// The members written so far are always those of the entries put so far.
pub struct ObjectWriter {
    members: Vec<(String, Json)>,
    table: Ghost<Seq<Field>>,
}

impl ObjectWriter {
    #[verifier::type_invariant]
    spec fn members_follow_table(&self) -> bool {
        Json::Object(self.members)@ == object_of(self.table@)
    }

    /// The entries put so far.
    pub closed spec fn fields(&self) -> Seq<Field> {
        self.table@
    }

    /// A writer to which no field has been put.
    pub fn new() -> (w: ObjectWriter)
        ensures
            w.fields() == Seq::<Field>::empty(),
    {
        let members: Vec<(String, Json)> = Vec::new();
        proof {
            reveal(Seq::filter);
            assert(Json::Object(members)@->Object_0 =~= present(Seq::<Field>::empty()));
        }
        ObjectWriter { members, table: Ghost(Seq::empty()) }
    }

    /// Puts the next field: a member named `name` if `value` is present, nothing
    /// if it is absent.
    pub fn put(self, name: &str, value: Option<Json>) -> (w: ObjectWriter)
        ensures
            w.fields() == self.fields().push(json_field(name@, opt_view(value))),
    {
        proof {
            use_type_invariant(&self);
            lemma_present_push(self.table@, json_field(name@, opt_view(value)));
        }
        let ghost table = self.table@.push(json_field(name@, opt_view(value)));
        let ghost before = Json::Object(self.members)@->Object_0;
        let mut members = self.members;
        match value {
            Some(v) => {
                let ghost earlier = members@;
                members.push((name.to_owned(), v));
                proof {
                    let after = Json::Object(members)@->Object_0;
                    assert forall|i: int| 0 <= i < before.len() implies after[i] == before[i] by {
                        assert(members@[i] == earlier[i]);
                    }
                    assert(after =~= before.push((name@, v@)));
                }
            },
            None => {},
        }
        ObjectWriter { members, table: Ghost(table) }
    }

    /// Puts a text field.
    pub fn text(self, name: &str, value: Option<&str>) -> (w: ObjectWriter)
        ensures
            w.fields() == self.fields().push(text_field(name@, opt_view(value))),
    {
        let doc = match value {
            Some(v) => Some(Json::String(v.to_owned())),
            None => None,
        };
        self.put(name, doc)
    }

    /// Puts a boolean field.
    pub fn flag(self, name: &str, value: Option<bool>) -> (w: ObjectWriter)
        ensures
            w.fields() == self.fields().push(flag_field(name@, value)),
    {
        let doc = match value {
            Some(v) => Some(Json::Bool(v)),
            None => None,
        };
        self.put(name, doc)
    }

    /// Puts a field that holds a list of texts.
    pub fn list(self, name: &str, value: Option<&[String]>) -> (w: ObjectWriter)
        ensures
            w.fields() == self.fields().push(list_field(name@, opt_view(value))),
    {
        let doc = match value {
            Some(items) => {
                let mut out: Vec<Json> = Vec::new();
                let mut i: usize = 0;
                while i < items.len()
                    invariant
                        i <= items.len(),
                        out.len() == i,
                        forall|k: int| 0 <= k < i ==> out@[k]@ == JsonValue::String(items@[k]@),
                    decreases items.len() - i,
                {
                    out.push(Json::String(items[i].clone()));
                    i += 1;
                }
                let array = Json::Array(out);
                assert(array@ == text_array(items@)) by {
                    assert(array@->Array_0 =~= text_array(items@)->Array_0);
                }
                Some(array)
            },
            None => None,
        };
        self.put(name, doc)
    }

    /// Puts a field that holds a value of a closed set.
    pub fn token<E: WireToken>(self, name: &str, value: &Option<E>) -> (w: ObjectWriter)
        ensures
            w.fields() == self.fields().push(text_field(name@, opt_token(*value))),
    {
        let doc = match value {
            Some(v) => Some(token_json(v)),
            None => None,
        };
        self.put(name, doc)
    }

    /// Puts a field that holds a number, given as its literal.
    pub fn number(self, name: &str, value: Option<&str>) -> (w: ObjectWriter)
        ensures
            w.fields() == self.fields().push(number_field(name@, opt_view(value))),
    {
        let doc = match value {
            Some(v) => Some(Json::Number(v.to_owned())),
            None => None,
        };
        self.put(name, doc)
    }

    /// Puts an integer field.
    pub fn integer(self, name: &str, value: Option<i32>) -> (w: ObjectWriter)
        ensures
            w.fields() == self.fields().push(int_field(name@, value)),
    {
        let doc = match value {
            Some(v) => Some(Json::Number(signed_text(v as i64))),
            None => None,
        };
        self.put(name, doc)
    }

    /// Puts a field that holds any JSON value, as a copy of it.
    pub fn json(self, name: &str, value: Option<&Json>) -> (w: ObjectWriter)
        ensures
            w.fields() == self.fields().push(json_field(name@, opt_view(value))),
    {
        let doc = match value {
            Some(v) => Some(v.copy()),
            None => None,
        };
        self.put(name, doc)
    }

    /// Puts a field that holds a nested block.
    pub fn block<B: WireBlock>(self, name: &str, value: &Option<B>) -> (w: ObjectWriter)
        ensures
            w.fields() == self.fields().push(block_field(name@, opt_fields(*value))),
    {
        let doc = match value {
            Some(b) => Some(b.to_json()),
            None => None,
        };
        self.put(name, doc)
    }

    /// The object of the fields put.
    pub fn finish(self) -> (doc: Json)
        ensures
            doc@ == object_of(self.fields()),
    {
        proof {
            use_type_invariant(&self);
        }
        Json::Object(self.members)
    }
}

} // verus!
