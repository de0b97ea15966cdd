//! The value that a message becomes on the wire, before a writer turns it into bytes.

use vstd::prelude::*;

use crate::table;
use crate::table::Table;
use crate::text;

verus! {

/// A JSON value. The contract's only numbers are unsigned whole numbers; an object keeps its
/// members in the order in which they are written.
#[derive(Debug, PartialEq, Eq)]
pub enum Json {
    Null,
    Bool(bool),
    Number(u64),
    Text(String),
    List(Vec<Json>),
    Object(Vec<(String, Json)>),
}

/// A JSON value with its texts as sequences of characters.
#[verifier::ext_equal]
pub enum JsonView {
    Null,
    Bool(bool),
    Number(int),
    Text(Seq<char>),
    List(Seq<JsonView>),
    Object(Seq<(Seq<char>, JsonView)>),
}

pub open spec fn json_view(j: Json) -> JsonView
    decreases j,
{
    match j {
        Json::Null => JsonView::Null,
        Json::Bool(b) => JsonView::Bool(b),
        Json::Number(n) => JsonView::Number(n as int),
        Json::Text(s) => JsonView::Text(s@),
        Json::List(items) => JsonView::List(items_view(items@)),
        Json::Object(members) => JsonView::Object(members_view(members@)),
    }
}

pub open spec fn items_view(items: Seq<Json>) -> Seq<JsonView>
    decreases items,
{
    if items.len() == 0 {
        Seq::empty()
    } else {
        items_view(items.drop_last()).push(json_view(items.last()))
    }
}

pub open spec fn members_view(members: Seq<(String, Json)>) -> Seq<(Seq<char>, JsonView)>
    decreases members,
{
    if members.len() == 0 {
        Seq::empty()
    } else {
        members_view(members.drop_last()).push((members.last().0@, json_view(members.last().1)))
    }
}

impl View for Json {
    type V = JsonView;

    open spec fn view(&self) -> JsonView {
        json_view(*self)
    }
}

/// A text, or null where there is none.
pub open spec fn text_or_null(o: Option<Seq<char>>) -> JsonView {
    match o {
        Some(s) => JsonView::Text(s),
        None => JsonView::Null,
    }
}

/// A boolean, or null where there is none.
pub open spec fn bool_or_null(o: Option<bool>) -> JsonView {
    match o {
        Some(b) => JsonView::Bool(b),
        None => JsonView::Null,
    }
}

/// One member where there is a value for it, and none otherwise.
pub open spec fn member_if(name: Seq<char>, value: Option<JsonView>) -> Seq<(Seq<char>, JsonView)> {
    match value {
        Some(v) => seq![(name, v)],
        None => Seq::empty(),
    }
}

pub open spec fn text_member_if(name: Seq<char>, value: Option<Seq<char>>) -> Seq<
    (Seq<char>, JsonView),
> {
    match value {
        Some(v) => seq![(name, JsonView::Text(v))],
        None => Seq::empty(),
    }
}

pub open spec fn bool_member_if(name: Seq<char>, value: Option<bool>) -> Seq<
    (Seq<char>, JsonView),
> {
    match value {
        Some(v) => seq![(name, JsonView::Bool(v))],
        None => Seq::empty(),
    }
}

pub open spec fn number_member_if(name: Seq<char>, value: Option<int>) -> Seq<
    (Seq<char>, JsonView),
> {
    match value {
        Some(v) => seq![(name, JsonView::Number(v))],
        None => Seq::empty(),
    }
}

/// A value with the members of every object in the order of their names, each name once.
pub open spec fn key_ordered(j: JsonView) -> JsonView
    decreases j,
{
    match j {
        JsonView::List(items) => JsonView::List(ordered_items(items)),
        JsonView::Object(members) => JsonView::Object(ordered_members(members)),
        _ => j,
    }
}

pub open spec fn ordered_items(items: Seq<JsonView>) -> Seq<JsonView>
    decreases items,
{
    if items.len() == 0 {
        Seq::empty()
    } else {
        ordered_items(items.drop_last()).push(key_ordered(items.last()))
    }
}

/// Of two members with one name the later stands.
pub open spec fn ordered_members(members: Seq<(Seq<char>, JsonView)>) -> Seq<(Seq<char>, JsonView)>
    decreases members,
{
    if members.len() == 0 {
        Seq::empty()
    } else {
        table::put_row(
            ordered_members(members.drop_last()),
            members.last().0,
            key_ordered(members.last().1),
        )
    }
}

proof fn lemma_members_of_rows(entries: Seq<(String, Json)>, rows: Seq<(Seq<char>, Json)>)
    requires
        entries.len() == rows.len(),
        forall|i: int|
            0 <= i < entries.len() ==> ((#[trigger] entries[i]).0@, entries[i].1) == rows[i],
    ensures
        members_view(entries) == table::map_rows(rows, |j: Json| j@),
    decreases entries.len(),
{
    if entries.len() > 0 {
        lemma_members_of_rows(entries.drop_last(), rows.drop_last());
        assert(entries[entries.len() - 1].1 == rows.last().1);
    }
    assert(members_view(entries) =~= table::map_rows(rows, |j: Json| j@));
}

/// A copy of a value, with the members of every object in the order of their names.
pub fn in_key_order(j: &Json) -> (r: Json)
    ensures
        r@ == key_ordered(j@),
    decreases j,
{
    match j {
        Json::Null => Json::Null,
        Json::Bool(b) => Json::Bool(*b),
        Json::Number(n) => Json::Number(*n),
        Json::Text(s) => Json::Text(s.clone()),
        Json::List(items) => {
            let mut out = Items::new();
            let mut i: usize = 0;
            while i < items.len()
                invariant
                    i <= items@.len(),
                    out@ == ordered_items(items_view(items@.take(i as int))),
                    decreases_to!(j => items@),
                decreases items@.len() - i,
            {
                out.add_item(in_key_order(&items[i]));
                i = i + 1;
                proof {
                    let now = items_view(items@.take(i as int));
                    assert(items@.take(i as int).drop_last() =~= items@.take(i - 1));
                    assert(now.drop_last() =~= items_view(items@.take(i - 1)));
                }
            }
            assert(items@.take(i as int) =~= items@);
            out.finish()
        },
        Json::Object(members) => {
            let mut rows: Table<Json> = Table::new();
            let mut i: usize = 0;
            assert(table::map_rows(rows@, |j: Json| j@) =~= ordered_members(
                members_view(members@.take(0)),
            ));
            while i < members.len()
                invariant
                    i <= members@.len(),
                    table::map_rows(rows@, |j: Json| j@) == ordered_members(
                        members_view(members@.take(i as int)),
                    ),
                    decreases_to!(j => members@),
                decreases members@.len() - i,
            {
                let value = in_key_order(&members[i].1);
                proof {
                    let now = members_view(members@.take(i + 1));
                    assert(members@.take(i + 1).drop_last() =~= members@.take(i as int));
                    assert(now.drop_last() =~= members_view(members@.take(i as int)));
                    table::lemma_put_row_mapped(rows@, members@[i as int].0@, value, |j: Json| j@);
                }
                rows.insert(members[i].0.clone(), value);
                i = i + 1;
            }
            assert(members@.take(i as int) =~= members@);
            let ghost listed = rows@;
            let entries = rows.into_rows();
            proof {
                lemma_members_of_rows(entries@, listed);
            }
            Json::Object(entries)
        },
    }
}

/// A copy of a value.
fn copy_json(j: &Json) -> (r: Json)
    ensures
        r@ == j@,
    decreases j,
{
    match j {
        Json::Null => Json::Null,
        Json::Bool(b) => Json::Bool(*b),
        Json::Number(n) => Json::Number(*n),
        Json::Text(s) => Json::Text(s.clone()),
        Json::List(items) => {
            let mut out = Items::new();
            let mut i: usize = 0;
            while i < items.len()
                invariant
                    i <= items@.len(),
                    out@ == items_view(items@.take(i as int)),
                    decreases_to!(j => items@),
                decreases items@.len() - i,
            {
                out.add_item(copy_json(&items[i]));
                i = i + 1;
                assert(items@.take(i as int).drop_last() =~= items@.take(i - 1));
            }
            assert(items@.take(i as int) =~= items@);
            out.finish()
        },
        Json::Object(members) => {
            let mut out = Members::new();
            let mut i: usize = 0;
            while i < members.len()
                invariant
                    i <= members@.len(),
                    out@ == members_view(members@.take(i as int)),
                    decreases_to!(j => members@),
                decreases members@.len() - i,
            {
                out.put(members[i].0.as_str(), copy_json(&members[i].1));
                i = i + 1;
                assert(members@.take(i as int).drop_last() =~= members@.take(i - 1));
            }
            assert(members@.take(i as int) =~= members@);
            out.finish()
        },
    }
}

impl Clone for Json {
    fn clone(&self) -> (r: Self)
        ensures
            r@ == self@,
    {
        copy_json(self)
    }
}

impl Json {
    pub fn text(s: &str) -> (r: Json)
        ensures
            r@ == JsonView::Text(s@),
    {
        Json::Text(s.to_owned())
    }

    pub fn text_or_null(s: &Option<String>) -> (r: Json)
        ensures
            r@ == text_or_null(text::opt_text(*s)),
    {
        match s {
            Some(s) => Json::text(s.as_str()),
            None => Json::Null,
        }
    }

    pub fn bool_or_null(b: Option<bool>) -> (r: Json)
        ensures
            r@ == bool_or_null(b),
    {
        match b {
            Some(b) => Json::Bool(b),
            None => Json::Null,
        }
    }
}

/// The members of an object under construction.
pub struct Members {
    entries: Vec<(String, Json)>,
}

impl View for Members {
    type V = Seq<(Seq<char>, JsonView)>;

    closed spec fn view(&self) -> Seq<(Seq<char>, JsonView)> {
        members_view(self.entries@)
    }
}

impl Members {
    pub fn new() -> (r: Members)
        ensures
            r@ == Seq::<(Seq<char>, JsonView)>::empty(),
    {
        Members { entries: Vec::new() }
    }

    /// Adds a member behind those already there.
    pub fn put(&mut self, name: &str, value: Json)
        ensures
            final(self)@ == old(self)@.push((name@, value@)),
    {
        let ghost before = self.entries@;
        self.entries.push((name.to_owned(), value));
        assert(self.entries@.drop_last() =~= before);
    }

    pub fn put_text(&mut self, name: &str, value: &str)
        ensures
            final(self)@ == old(self)@.push((name@, JsonView::Text(value@))),
    {
        self.put(name, Json::text(value));
    }

    pub fn put_text_if(&mut self, name: &str, value: &Option<String>)
        ensures
            final(self)@ == old(self)@ + text_member_if(name@, text::opt_text(*value)),
    {
        match value {
            Some(s) => self.put_text(name, s.as_str()),
            None => (),
        }
        assert(self@ =~= old(self)@ + text_member_if(name@, text::opt_text(*value)));
    }

    pub fn put_str_if(&mut self, name: &str, value: Option<&str>)
        ensures
            final(self)@ == old(self)@ + text_member_if(name@, text::opt_str(value)),
    {
        match value {
            Some(s) => self.put_text(name, s),
            None => (),
        }
        assert(self@ =~= old(self)@ + text_member_if(name@, text::opt_str(value)));
    }

    pub fn put_bool_if(&mut self, name: &str, value: Option<bool>)
        ensures
            final(self)@ == old(self)@ + bool_member_if(name@, value),
    {
        match value {
            Some(b) => self.put(name, Json::Bool(b)),
            None => (),
        }
        assert(self@ =~= old(self)@ + bool_member_if(name@, value));
    }

    pub fn put_number_if(&mut self, name: &str, value: Option<u64>)
        ensures
            final(self)@ == old(self)@ + number_member_if(name@, text::opt_int(value)),
    {
        match value {
            Some(n) => self.put(name, Json::Number(n)),
            None => (),
        }
        assert(self@ =~= old(self)@ + number_member_if(name@, text::opt_int(value)));
    }

    pub fn put_if(&mut self, name: &str, value: Option<Json>)
        ensures
            final(self)@ == old(self)@ + member_if(
                name@,
                match value {
                    Some(v) => Some(v@),
                    None => None,
                },
            ),
    {
        match value {
            Some(v) => self.put(name, v),
            None => (),
        }
        assert(self@ =~= old(self)@ + member_if(
            name@,
            match value {
                Some(v) => Some(v@),
                None => None,
            },
        ));
    }

    pub fn finish(self) -> (r: Json)
        ensures
            r@ == JsonView::Object(self@),
    {
        Json::Object(self.entries)
    }
}

/// The items of a list under construction.
pub struct Items {
    items: Vec<Json>,
}

impl View for Items {
    type V = Seq<JsonView>;

    closed spec fn view(&self) -> Seq<JsonView> {
        items_view(self.items@)
    }
}

impl Items {
    pub fn new() -> (r: Items)
        ensures
            r@ == Seq::<JsonView>::empty(),
    {
        Items { items: Vec::new() }
    }

    /// Adds an item behind those already there.
    pub fn add_item(&mut self, value: Json)
        ensures
            final(self)@ == old(self)@.push(value@),
    {
        let ghost before = self.items@;
        self.items.push(value);
        assert(self.items@.drop_last() =~= before);
    }

    pub fn finish(self) -> (r: Json)
        ensures
            r@ == JsonView::List(self@),
    {
        Json::List(self.items)
    }
}

/// In key order the members of an object ascend by name, so that a name occurs once.
pub proof fn law_key_order_ascends(members: Seq<(Seq<char>, JsonView)>)
    ensures
        key_ordered(JsonView::Object(members)) == JsonView::Object(ordered_members(members)),
        table::ascending(ordered_members(members)),
    decreases members.len(),
{
    if members.len() > 0 {
        law_key_order_ascends(members.drop_last());
        table::law_put_row(
            ordered_members(members.drop_last()),
            members.last().0,
            key_ordered(members.last().1),
        );
    }
}

/// A member is there exactly where its value is, whatever the value: an empty text, `false` and zero
/// are written like any other.
pub proof fn law_member_iff_given(
    name: Seq<char>,
    value: JsonView,
    s: Seq<char>,
    b: bool,
    n: int,
)
    ensures
        member_if(name, Some(value)) == seq![(name, value)],
        member_if(name, None).len() == 0,
        text_member_if(name, Some(s)) == seq![(name, JsonView::Text(s))],
        text_member_if(name, None).len() == 0,
        bool_member_if(name, Some(b)) == seq![(name, JsonView::Bool(b))],
        bool_member_if(name, None).len() == 0,
        number_member_if(name, Some(n)) == seq![(name, JsonView::Number(n))],
        number_member_if(name, None).len() == 0,
        text_or_null(Some(s)) == JsonView::Text(s),
        text_or_null(None) == JsonView::Null,
        bool_or_null(Some(b)) == JsonView::Bool(b),
        bool_or_null(None) == JsonView::Null,
{
}

/// Key order keeps the items of a list, one for one and in their order, and leaves plain values
/// alone.
pub proof fn law_key_order_keeps_items(items: Seq<JsonView>, i: int)
    requires
        0 <= i < items.len(),
    ensures
        key_ordered(JsonView::List(items)) matches JsonView::List(out) && out.len() == items.len()
            && out[i] == key_ordered(items[i]),
        !(items[i] is List) && !(items[i] is Object) ==> key_ordered(items[i]) == items[i],
    decreases items.len(),
{
    lemma_ordered_len(items.drop_last());
    if i < items.len() - 1 {
        law_key_order_keeps_items(items.drop_last(), i);
    }
}

proof fn lemma_ordered_len(items: Seq<JsonView>)
    ensures
        ordered_items(items).len() == items.len(),
    decreases items.len(),
{
    if items.len() > 0 {
        lemma_ordered_len(items.drop_last());
    }
}

/// Key order keeps every member: the last one of a name is there with its value, and no name comes
/// in that was not there.
pub proof fn law_key_order_keeps_members(members: Seq<(Seq<char>, JsonView)>, i: int)
    requires
        0 <= i < members.len(),
        forall|j: int| i < j < members.len() ==> (#[trigger] members[j]).0 != members[i].0,
    ensures
        ordered_members(members).contains((members[i].0, key_ordered(members[i].1))),
{
    lemma_ordered_dict(members, i);
    law_key_order_ascends(members);
    table::law_map_of_rows(ordered_members(members));
    let rows = ordered_members(members);
    let k = choose|k: int| 0 <= k < rows.len() && (#[trigger] rows[k]).0 == members[i].0;
    assert(rows[k] == (members[i].0, key_ordered(members[i].1)));
}

proof fn lemma_ordered_dict(members: Seq<(Seq<char>, JsonView)>, i: int)
    requires
        0 <= i < members.len(),
        forall|j: int| i < j < members.len() ==> (#[trigger] members[j]).0 != members[i].0,
    ensures
        table::dict(ordered_members(members)).dom().contains(members[i].0),
        table::dict(ordered_members(members))[members[i].0] == key_ordered(members[i].1),
    decreases members.len(),
{
    let front = members.drop_last();
    let last = members.last();
    law_key_order_ascends(front);
    table::law_put_row(ordered_members(front), last.0, key_ordered(last.1));
    if i < front.len() {
        assert(members[members.len() - 1].0 != members[i].0);
        assert forall|j: int| i < j < front.len() implies (#[trigger] front[j]).0 != front[i].0 by {
            assert(members[j].0 != members[i].0);
        }
        lemma_ordered_dict(front, i);
    }
}

/// Every member of an object in key order was a member of the object.
pub proof fn law_key_order_adds_nothing(members: Seq<(Seq<char>, JsonView)>)
    ensures
        forall|k: int|
            0 <= k < ordered_members(members).len() ==> exists|i: int|
                0 <= i < members.len() && (#[trigger] members[i]).0 == (
                #[trigger] ordered_members(members)[k]).0 && key_ordered(members[i].1)
                    == ordered_members(members)[k].1,
    decreases members.len(),
{
    if members.len() > 0 {
        let front = members.drop_last();
        let last = members.last();
        law_key_order_adds_nothing(front);
        law_key_order_ascends(front);
        law_key_order_ascends(members);
        let was = ordered_members(front);
        let rows = ordered_members(members);
        table::law_put_row(was, last.0, key_ordered(last.1));
        table::law_map_of_rows(rows);
        table::law_map_of_rows(was);
        assert forall|k: int| 0 <= k < rows.len() implies exists|i: int|
            0 <= i < members.len() && (#[trigger] members[i]).0 == (#[trigger] rows[k]).0
                && key_ordered(members[i].1) == rows[k].1 by {
            if rows[k].0 == last.0 {
                assert(members[members.len() - 1] == last);
                assert(rows[k].1 == table::dict(rows)[last.0]);
            } else {
                assert(table::dict(rows).dom().contains(rows[k].0));
                assert(table::dict(was).dom().contains(rows[k].0));
                let j = choose|j: int| 0 <= j < was.len() && (#[trigger] was[j]).0 == rows[k].0;
                assert(was[j].1 == rows[k].1);
                let i = choose|i: int|
                    0 <= i < front.len() && (#[trigger] front[i]).0 == was[j].0 && key_ordered(
                        front[i].1,
                    ) == was[j].1;
                assert(members[i] == front[i]);
            }
        }
    }
}

/// The view of a value shows all of it: what it is, and every item and member in its place.
pub proof fn law_view_of_json(j: Json, i: int)
    ensures
        j is Null ==> j@ == JsonView::Null,
        j matches Json::Bool(b) ==> j@ == JsonView::Bool(b),
        j matches Json::Number(n) ==> j@ == JsonView::Number(n as int),
        j matches Json::Text(s) ==> j@ == JsonView::Text(s@),
        j matches Json::List(items) ==> {
            &&& j@ matches JsonView::List(shown)
            &&& shown.len() == items@.len()
            &&& 0 <= i < items@.len() ==> shown[i] == items@[i]@
        },
        j matches Json::Object(members) ==> {
            &&& j@ matches JsonView::Object(shown)
            &&& shown.len() == members@.len()
            &&& 0 <= i < members@.len() ==> shown[i] == (members@[i].0@, members@[i].1@)
        },
{
    match j {
        Json::List(items) => lemma_items_shown(items@, i),
        Json::Object(members) => lemma_members_shown(members@, i),
        _ => (),
    }
}

proof fn lemma_items_shown(items: Seq<Json>, i: int)
    ensures
        items_view(items).len() == items.len(),
        0 <= i < items.len() ==> items_view(items)[i] == json_view(items[i]),
    decreases items.len(),
{
    if items.len() > 0 {
        lemma_items_shown(items.drop_last(), i);
    }
}

proof fn lemma_members_shown(members: Seq<(String, Json)>, i: int)
    ensures
        members_view(members).len() == members.len(),
        0 <= i < members.len() ==> members_view(members)[i] == (
            members[i].0@,
            json_view(members[i].1),
        ),
    decreases members.len(),
{
    if members.len() > 0 {
        lemma_members_shown(members.drop_last(), i);
    }
}

} // verus!
