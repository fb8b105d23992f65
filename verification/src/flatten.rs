use crate::decode::array_member;
use crate::decode::read_array;
use crate::decode::text_member;
use crate::json::json_parse;
use crate::json::views;
use crate::json::Json;
use crate::json::JsonValue;
use crate::text::decimal;
use crate::text::i64_to_decimal;
use crate::text::spec_starts_with;
use crate::text::spec_strip_quotes;
use crate::text::starts_with_char;
use crate::text::strip_quotes;
use vstd::prelude::*;
use vstd::string::*;

verus! {

/// The integers among `items`, in their order; any other element is left out.
pub open spec fn integers_of(items: Seq<JsonValue>) -> Seq<int>
    decreases items.len(),
{
    if items.len() == 0 {
        seq![]
    } else {
        let rest = integers_of(items.drop_last());
        match items.last() {
            JsonValue::Int(n) => rest.push(n),
            _ => rest,
        }
    }
}

/// The integer `id` members of `items`, in their order; an element without
/// one is left out.
pub open spec fn person_ids(items: Seq<JsonValue>) -> Seq<int>
    decreases items.len(),
{
    if items.len() == 0 {
        seq![]
    } else {
        let rest = person_ids(items.drop_last());
        match items.last().field("id"@) {
            Some(JsonValue::Int(n)) => rest.push(n),
            _ => rest,
        }
    }
}

/// The numbers in decimal, a comma and a space between each two; empty for
/// no numbers.
pub open spec fn join_decimals(numbers: Seq<int>) -> Seq<char>
    decreases numbers.len(),
{
    if numbers.len() == 0 {
        seq![]
    } else if numbers.len() == 1 {
        decimal(numbers[0])
    } else {
        join_decimals(numbers.drop_last()) + ", "@ + decimal(numbers.last())
    }
}

/// The numbers of a list as mathematical integers.
pub open spec fn as_ints(numbers: Seq<i64>) -> Seq<int> {
    Seq::new(numbers.len(), |i: int| numbers[i] as int)
}

/// The shapes of column value that have a display form of their own.
#[derive(Debug, Clone, Copy, PartialEq, Eq, Structural)]
pub enum Shape {
    /// A string member `text`: shown as that string.
    Text,
    /// A string member `date`: shown as that string.
    Date,
    /// An array member `ids`: shown as its integers, joined.
    Ids,
    /// An array member `personsAndTeams`: shown as the integer ids of its
    /// elements, joined.
    Persons,
    /// An integer member `index`: shown in decimal.
    Index,
}

/// The order in which the shapes are probed: the first that fits is shown.
pub open spec fn probe_order() -> Seq<Shape> {
    seq![Shape::Text, Shape::Date, Shape::Ids, Shape::Persons, Shape::Index]
}

impl Shape {
    /// What is shown of `value` where it has this shape; `None` where it
    /// has not.
    pub open spec fn shown(self, value: JsonValue) -> Option<Seq<char>> {
        match self {
            Shape::Text => text_member(value, "text"@),
            Shape::Date => text_member(value, "date"@),
            Shape::Ids => match array_member(value, "ids"@) {
                Some(items) => Some(join_decimals(integers_of(items))),
                None => None,
            },
            Shape::Persons => match array_member(value, "personsAndTeams"@) {
                Some(items) => Some(join_decimals(person_ids(items))),
                None => None,
            },
            Shape::Index => match value.field("index"@) {
                Some(JsonValue::Int(n)) => Some(decimal(n)),
                _ => None,
            },
        }
    }
}

/// What the first shape of `shapes` that fits `value` shows of it.
pub open spec fn first_shown(shapes: Seq<Shape>, value: JsonValue) -> Option<Seq<char>>
    decreases shapes.len(),
{
    if shapes.len() == 0 {
        None
    } else {
        match shapes[0].shown(value) {
            Some(text) => Some(text),
            None => first_shown(shapes.drop_first(), value),
        }
    }
}

/// The display form of a parsed column value: what the first fitting shape
/// shows, and the raw text where none fits.
pub open spec fn flatten_value(raw: Seq<char>, value: JsonValue) -> Seq<char> {
    match first_shown(probe_order(), value) {
        Some(text) => text,
        None => raw,
    }
}

/// The display form of a raw text and what was read from it: the raw text
/// itself where nothing could be read.
pub open spec fn flatten_parsed(raw: Seq<char>, parsed: Option<JsonValue>) -> Seq<char> {
    match parsed {
        Some(value) => flatten_value(raw, value),
        None => raw,
    }
}

/// Whether a raw text is taken for JSON: it begins with `{` or with `[`.
pub open spec fn looks_structured(raw: Seq<char>) -> bool {
    spec_starts_with(raw, '{') || spec_starts_with(raw, '[')
}

/// The display form of a column value: empty for no value; a text that is
/// taken for JSON by what is read from it; any other text without its
/// surrounding quotes.
pub open spec fn flatten(value: Option<Seq<char>>) -> Seq<char> {
    match value {
        None => seq![],
        Some(raw) => if looks_structured(raw) {
            flatten_parsed(raw, json_parse(raw))
        } else {
            spec_strip_quotes(raw)
        },
    }
}

/// The shapes are probed in their order: the display form of a parsed value
/// is what `text` shows, else what `date` shows, else `ids`, else
/// `personsAndTeams`, else `index`, else the raw text.
pub proof fn lemma_probe_order(raw: Seq<char>, value: JsonValue)
    ensures
        flatten_value(raw, value) == match Shape::Text.shown(value) {
            Some(text) => text,
            None => match Shape::Date.shown(value) {
                Some(text) => text,
                None => match Shape::Ids.shown(value) {
                    Some(text) => text,
                    None => match Shape::Persons.shown(value) {
                        Some(text) => text,
                        None => match Shape::Index.shown(value) {
                            Some(text) => text,
                            None => raw,
                        },
                    },
                },
            },
        },
{
    let order = probe_order();
    assert(order.drop_first() =~= seq![Shape::Date, Shape::Ids, Shape::Persons, Shape::Index]);
    assert(order.drop_first().drop_first() =~= seq![Shape::Ids, Shape::Persons, Shape::Index]);
    assert(order.drop_first().drop_first().drop_first() =~= seq![Shape::Persons, Shape::Index]);
    assert(order.drop_first().drop_first().drop_first().drop_first() =~= seq![Shape::Index]);
    assert(order.drop_first().drop_first().drop_first().drop_first().drop_first() =~= seq![]);
    reveal_with_fuel(first_shown, 6);
}

/// A text that is taken for JSON and reads as a value with a string member
/// `text` is shown as that string, whatever else the value holds.
pub proof fn lemma_text_is_shown(raw: Seq<char>, value: JsonValue, text: Seq<char>)
    requires
        looks_structured(raw),
        json_parse(raw) == Some(value),
        value.field("text"@) == Some(JsonValue::Str(text)),
    ensures
        flatten(Some(raw)) == text,
{
    lemma_probe_order(raw, value);
}

/// Without a string member `text`, a string member `date` is shown.
pub proof fn lemma_date_is_shown(raw: Seq<char>, value: JsonValue, date: Seq<char>)
    requires
        looks_structured(raw),
        json_parse(raw) == Some(value),
        text_member(value, "text"@) is None,
        value.field("date"@) == Some(JsonValue::Str(date)),
    ensures
        flatten(Some(raw)) == date,
{
    lemma_probe_order(raw, value);
}

/// The integers of an array of integers are its elements.
pub proof fn lemma_integers_of_integers(ids: Seq<int>)
    ensures
        integers_of(Seq::new(ids.len(), |i: int| JsonValue::Int(ids[i]))) == ids,
    decreases ids.len(),
{
    let items = Seq::new(ids.len(), |i: int| JsonValue::Int(ids[i]));
    if ids.len() > 0 {
        let shorter = ids.drop_last();
        lemma_integers_of_integers(shorter);
        assert(items.drop_last() =~= Seq::new(shorter.len(), |i: int| JsonValue::Int(shorter[i])));
        assert(integers_of(items) =~= ids);
    } else {
        assert(integers_of(items) =~= ids);
    }
}

/// A value whose `ids` member is an array of the integers `ids`, and which
/// has no string member `text` or `date`, is shown as those integers in
/// their order, joined by a comma and a space.
pub proof fn lemma_ids_are_joined(raw: Seq<char>, value: JsonValue, ids: Seq<int>)
    requires
        looks_structured(raw),
        json_parse(raw) == Some(value),
        text_member(value, "text"@) is None,
        text_member(value, "date"@) is None,
        value.field("ids"@) == Some(
            JsonValue::Array(Seq::new(ids.len(), |i: int| JsonValue::Int(ids[i]))),
        ),
    ensures
        flatten(Some(raw)) == join_decimals(ids),
{
    lemma_probe_order(raw, value);
    lemma_integers_of_integers(ids);
}

/// The ids of a list of persons that each have an integer `id` are those
/// integers.
pub proof fn lemma_person_ids_of_persons(persons: Seq<JsonValue>, ids: Seq<int>)
    requires
        persons.len() == ids.len(),
        forall|i: int|
            0 <= i < persons.len() ==> (#[trigger] persons[i]).field("id"@) == Some(
                JsonValue::Int(ids[i]),
            ),
    ensures
        person_ids(persons) == ids,
    decreases persons.len(),
{
    if persons.len() > 0 {
        lemma_person_ids_of_persons(persons.drop_last(), ids.drop_last());
        assert(person_ids(persons) =~= ids);
    } else {
        assert(person_ids(persons) =~= ids);
    }
}

/// A value whose `personsAndTeams` member is an array of persons with the
/// integer ids `ids`, and which has no string member `text` or `date` and no
/// array member `ids`, is shown as those ids in their order, joined by a
/// comma and a space.
pub proof fn lemma_persons_are_joined(
    raw: Seq<char>,
    value: JsonValue,
    persons: Seq<JsonValue>,
    ids: Seq<int>,
)
    requires
        looks_structured(raw),
        json_parse(raw) == Some(value),
        text_member(value, "text"@) is None,
        text_member(value, "date"@) is None,
        array_member(value, "ids"@) is None,
        value.field("personsAndTeams"@) == Some(JsonValue::Array(persons)),
        persons.len() == ids.len(),
        forall|i: int|
            0 <= i < persons.len() ==> (#[trigger] persons[i]).field("id"@) == Some(
                JsonValue::Int(ids[i]),
            ),
    ensures
        flatten(Some(raw)) == join_decimals(ids),
{
    lemma_probe_order(raw, value);
    lemma_person_ids_of_persons(persons, ids);
}

/// No numbers are joined to the empty text, one number to its decimal form,
/// and three to their decimal forms with `", "` between them.
pub proof fn lemma_join_decimals_small(a: int, b: int, c: int)
    ensures
        join_decimals(seq![]) == Seq::<char>::empty(),
        join_decimals(seq![a]) == decimal(a),
        join_decimals(seq![a, b]) == decimal(a) + ", "@ + decimal(b),
        join_decimals(seq![a, b, c]) == decimal(a) + ", "@ + decimal(b) + ", "@ + decimal(c),
{
    assert(seq![a, b].drop_last() =~= seq![a]);
    assert(seq![a, b, c].drop_last() =~= seq![a, b]);
    reveal_with_fuel(join_decimals, 4);
}

/// A text that is taken for JSON but cannot be read is shown unchanged.
pub proof fn lemma_unreadable_is_unchanged(raw: Seq<char>)
    requires
        looks_structured(raw),
        json_parse(raw) is None,
    ensures
        flatten(Some(raw)) == raw,
{
}

/// A value that fits none of the shapes is shown as its raw text.
pub proof fn lemma_shapeless_is_unchanged(raw: Seq<char>, value: JsonValue)
    requires
        looks_structured(raw),
        json_parse(raw) == Some(value),
        forall|i: int| 0 <= i < probe_order().len() ==> probe_order()[i].shown(value) is None,
    ensures
        flatten(Some(raw)) == raw,
{
    lemma_probe_order(raw, value);
    assert(probe_order()[0] == Shape::Text);
    assert(probe_order()[1] == Shape::Date);
    assert(probe_order()[2] == Shape::Ids);
    assert(probe_order()[3] == Shape::Persons);
    assert(probe_order()[4] == Shape::Index);
}

/// A text between two double quotes is shown without them: one layer of
/// quotes is taken off, and no more.
pub proof fn lemma_quoted_text_is_unquoted(inner: Seq<char>)
    ensures
        flatten(Some(seq!['"'] + inner + seq!['"'])) == inner,
{
    let raw = seq!['"'] + inner + seq!['"'];
    assert(raw[0] == '"');
    assert(raw[raw.len() - 1] == '"');
    assert(raw.subrange(1, raw.len() - 1) =~= inner);
}

/// No value is shown as the empty text.
pub proof fn lemma_absent_is_empty()
    ensures
        flatten(None) == Seq::<char>::empty(),
{
}

/// The integers among the elements of an array.
pub fn collect_integers(items: &Vec<Json>) -> (res: Vec<i64>)
    ensures
        as_ints(res@) == integers_of(views(items@)),
{
    let ghost all = views(items@);
    let mut res: Vec<i64> = Vec::new();
    let mut i: usize = 0;
    assert(all.take(0) =~= seq![]);
    assert(as_ints(res@) =~= seq![]);
    while i < items.len()
        invariant
            i <= items.len(),
            all == views(items@),
            as_ints(res@) == integers_of(all.take(i as int)),
        decreases items.len() - i,
    {
        let ghost before = as_ints(res@);
        proof {
            assert(all.take(i + 1).drop_last() =~= all.take(i as int));
            assert(all.take(i + 1).last() == items@[i as int]@);
        }
        if let Some(n) = items[i].as_i64() {
            res.push(n);
            assert(as_ints(res@) =~= before.push(n as int));
        }
        i += 1;
    }
    assert(all.take(items.len() as int) =~= all);
    res
}

/// The integer ids of the elements of an array.
pub fn collect_person_ids(items: &Vec<Json>) -> (res: Vec<i64>)
    ensures
        as_ints(res@) == person_ids(views(items@)),
{
    let ghost all = views(items@);
    let mut res: Vec<i64> = Vec::new();
    let mut i: usize = 0;
    assert(all.take(0) =~= seq![]);
    assert(as_ints(res@) =~= seq![]);
    while i < items.len()
        invariant
            i <= items.len(),
            all == views(items@),
            as_ints(res@) == person_ids(all.take(i as int)),
        decreases items.len() - i,
    {
        let ghost before = as_ints(res@);
        proof {
            assert(all.take(i + 1).drop_last() =~= all.take(i as int));
            assert(all.take(i + 1).last() == items@[i as int]@);
        }
        if let Some(id) = items[i].get("id") {
            if let Some(n) = id.as_i64() {
                res.push(n);
                assert(as_ints(res@) =~= before.push(n as int));
            }
        }
        i += 1;
    }
    assert(all.take(items.len() as int) =~= all);
    res
}

/// Writes the numbers in decimal, a comma and a space between each two.
pub fn join_numbers(numbers: &Vec<i64>) -> (res: String)
    ensures
        res@ == join_decimals(as_ints(numbers@)),
{
    let ghost all = as_ints(numbers@);
    let mut res = String::new();
    let mut i: usize = 0;
    assert(all.take(0) =~= seq![]);
    while i < numbers.len()
        invariant
            i <= numbers.len(),
            all == as_ints(numbers@),
            res@ == join_decimals(all.take(i as int)),
        decreases numbers.len() - i,
    {
        proof {
            assert(all.take(i + 1).drop_last() =~= all.take(i as int));
            assert(all.take(i + 1).last() == numbers@[i as int] as int);
        }
        if i > 0 {
            res.append(", ");
        }
        let digits = i64_to_decimal(numbers[i]);
        res.append(digits.as_str());
        proof {
            if i == 0 {
                assert(res@ =~= decimal(numbers@[0] as int));
                assert(all.take(1)[0] == numbers@[0] as int);
            }
        }
        i += 1;
    }
    assert(all.take(numbers.len() as int) =~= all);
    res
}

impl Shape {
    /// What is shown of `value` where it has this shape.
    pub fn show(self, value: &Json) -> (res: Option<String>)
        ensures
            match res {
                Some(text) => self.shown(value@) == Some(text@),
                None => self.shown(value@) is None,
            },
    {
        match self {
            Shape::Text => crate::decode::read_text(value, "text"),
            Shape::Date => crate::decode::read_text(value, "date"),
            Shape::Ids => match read_array(value, "ids") {
                Some(items) => Some(join_numbers(&collect_integers(items))),
                None => None,
            },
            Shape::Persons => match read_array(value, "personsAndTeams") {
                Some(items) => Some(join_numbers(&collect_person_ids(items))),
                None => None,
            },
            Shape::Index => match value.get("index") {
                Some(index) => match index.as_i64() {
                    Some(n) => Some(i64_to_decimal(n)),
                    None => None,
                },
                None => None,
            },
        }
    }
}

/// The display form of a parsed column value.
pub fn flatten_json(raw: &str, value: &Json) -> (res: String)
    ensures
        res@ == flatten_value(raw@, value@),
{
    let order: [Shape; 5] = [Shape::Text, Shape::Date, Shape::Ids, Shape::Persons, Shape::Index];
    assert(order@ =~= probe_order());
    assert(probe_order().skip(0) =~= probe_order());
    let mut i: usize = 0;
    while i < 5
        invariant
            i <= 5,
            order@ == probe_order(),
            first_shown(probe_order(), value@) == first_shown(probe_order().skip(i as int), value@),
        decreases 5 - i,
    {
        proof {
            assert(probe_order().skip(i as int).drop_first() =~= probe_order().skip(i + 1));
            assert(probe_order().skip(i as int)[0] == order@[i as int]);
        }
        if let Some(text) = order[i].show(value) {
            return text;
        }
        i += 1;
    }
    assert(probe_order().skip(5) =~= seq![]);
    raw.to_owned()
}

/// The display form of a raw text and what was read from it.
pub fn flatten_read(raw: &str, parsed: &Option<Json>) -> (res: String)
    ensures
        res@ == flatten_parsed(
            raw@,
            match parsed {
                Some(value) => Some(value@),
                None => None,
            },
        ),
{
    match parsed {
        Some(value) => flatten_json(raw, value),
        None => raw.to_owned(),
    }
}

/// The display form of a column value.
pub fn flatten_column_value(value: &Option<String>) -> (res: String)
    ensures
        res@ == flatten(
            match value {
                Some(raw) => Some(raw@),
                None => None,
            },
        ),
{
    match value {
        None => String::new(),
        Some(raw) => {
            let raw = raw.as_str();
            if starts_with_char(raw, '{') || starts_with_char(raw, '[') {
                match Json::parse(raw) {
                    Ok(tree) => flatten_read(raw, &Some(tree)),
                    Err(_) => flatten_read(raw, &None),
                }
            } else {
                strip_quotes(raw)
            }
        },
    }
}

} // verus!
