//! The host-facing value model, and the conversions that render cards and
//! notes as records of it.

use vstd::prelude::*;
use crate::text::dec_digits;
use crate::text::u64_to_string;

verus! {

/// A plain structured value exchanged with the host: nothing, a string, a
/// boolean, a record of named fields, or a list.
#[derive(Debug)]
pub enum DataValue {
    Nothing,
    Str(String),
    Bool(bool),
    Record(Vec<RecordField>),
    List(Vec<DataValue>),
}

/// One named field of a record value.
#[derive(Debug)]
pub struct RecordField {
    pub name: String,
    pub value: DataValue,
}

/// Whether a value is the given string.
pub open spec fn is_str_value(v: DataValue, s: Seq<char>) -> bool {
    v matches DataValue::Str(x) && x@ == s
}

/// Whether a value renders an optional number: its decimal digits when
/// present, nothing otherwise.
pub open spec fn is_opt_num_value(v: DataValue, n: Option<u64>) -> bool {
    match n {
        Option::Some(x) => is_str_value(v, dec_digits(x as int)),
        Option::None => v is Nothing,
    }
}

/// Whether a value is the list of the given strings.
pub open spec fn is_str_list_value(v: DataValue, names: Seq<Seq<char>>) -> bool {
    v matches DataValue::List(vs) && vs@.len() == names.len() && forall|i: int|
        0 <= i < names.len() ==> is_str_value(#[trigger] vs@[i], names[i])
}

/// Anything that renders itself as a host-facing value.
pub trait IntoValue {
    fn into_value(&self) -> DataValue;
}

impl<T: IntoValue> IntoValue for Vec<T> {
    /// Renders each element in order: a list of the same length.
    fn into_value(&self) -> (r: DataValue)
        ensures
            r matches DataValue::List(vs) && vs@.len() == self@.len(),
    {
        let mut vals: Vec<DataValue> = Vec::new();
        let mut i: usize = 0;
        while i < self.len()
            invariant
                i <= self@.len(),
                vals@.len() == i,
            decreases self@.len() - i,
        {
            vals.push(self[i].into_value());
            i += 1;
        }
        DataValue::List(vals)
    }
}

/// A present value, or nothing.
pub fn opt_as_value(value: Option<DataValue>) -> (r: DataValue)
    ensures
        match value {
            Option::Some(v) => r == v,
            Option::None => r is Nothing,
        },
{
    match value {
        Option::Some(v) => v,
        Option::None => DataValue::Nothing,
    }
}

/// What a card lookup returns, reduced to the fields the record shows: the
/// optional arena and online identifiers, the card's unique identifier,
/// language, name, and color identity.
#[derive(Debug)]
pub struct CardView {
    pub arena_id: Option<u64>,
    pub id: String,
    pub lang: String,
    pub name: String,
    pub mtgo_id: Option<u64>,
    pub color_identity: Vec<String>,
}

/// Renders an optional number as its decimal digits, or nothing.
fn opt_num_as_value(n: &Option<u64>) -> (r: DataValue)
    ensures
        is_opt_num_value(r, *n),
{
    match n {
        Option::Some(x) => DataValue::Str(u64_to_string(*x)),
        Option::None => DataValue::Nothing,
    }
}

/// Renders a card as a record of its identifier, language, name, and color
/// identity fields.
pub fn card_as_value(card: &CardView) -> (r: DataValue)
    ensures
        r matches DataValue::Record(fs) && fs@.len() == 6 && fs@[0].name@ == "arena_id"@
            && is_opt_num_value(fs@[0].value, card.arena_id) && fs@[1].name@ == "uuid"@
            && is_str_value(fs@[1].value, card.id@) && fs@[2].name@ == "lang"@ && is_str_value(
            fs@[2].value,
            card.lang@,
        ) && fs@[3].name@ == "mtgo_id"@ && is_opt_num_value(fs@[3].value, card.mtgo_id)
            && fs@[4].name@ == "name"@ && is_str_value(fs@[4].value, card.name@) && fs@[5].name@
            == "color_identity"@ && is_str_list_value(
            fs@[5].value,
            card.color_identity@.map_values(|c: String| c@),
        ),
{
    let mut colors: Vec<DataValue> = Vec::new();
    let mut i: usize = 0;
    while i < card.color_identity.len()
        invariant
            i <= card.color_identity@.len(),
            colors@.len() == i,
            forall|j: int|
                0 <= j < i ==> is_str_value(
                    #[trigger] colors@[j],
                    card.color_identity@.map_values(|c: String| c@)[j],
                ),
        decreases card.color_identity@.len() - i,
    {
        colors.push(DataValue::Str(card.color_identity[i].clone()));
        i += 1;
    }
    let mut fs: Vec<RecordField> = Vec::new();
    fs.push(RecordField { name: "arena_id".to_owned(), value: opt_num_as_value(&card.arena_id) });
    fs.push(RecordField { name: "uuid".to_owned(), value: DataValue::Str(card.id.clone()) });
    fs.push(RecordField { name: "lang".to_owned(), value: DataValue::Str(card.lang.clone()) });
    fs.push(RecordField { name: "mtgo_id".to_owned(), value: opt_num_as_value(&card.mtgo_id) });
    fs.push(RecordField { name: "name".to_owned(), value: DataValue::Str(card.name.clone()) });
    fs.push(
        RecordField { name: "color_identity".to_owned(), value: DataValue::List(colors) },
    );
    DataValue::Record(fs)
}

/// What a note fetch returns, reduced to the fields the record shows: its
/// title, optional content, brief, and object identifier.
#[derive(Debug)]
pub struct NoteView {
    pub title: String,
    pub content: Option<String>,
    pub brief: String,
    pub object_id: String,
}

impl IntoValue for NoteView {
    /// Renders a note as a record of its title, its content when present,
    /// its brief, and its identifier.
    fn into_value(&self) -> (r: DataValue)
        ensures
            match self.content {
                Option::Some(c) => r matches DataValue::Record(fs) && fs@.len() == 4
                    && fs@[0].name@ == "title"@ && is_str_value(fs@[0].value, self.title@)
                    && fs@[1].name@ == "content"@ && is_str_value(fs@[1].value, c@)
                    && fs@[2].name@ == "brief"@ && is_str_value(fs@[2].value, self.brief@)
                    && fs@[3].name@ == "id"@ && is_str_value(fs@[3].value, self.object_id@),
                Option::None => r matches DataValue::Record(fs) && fs@.len() == 3
                    && fs@[0].name@ == "title"@ && is_str_value(fs@[0].value, self.title@)
                    && fs@[1].name@ == "brief"@ && is_str_value(fs@[1].value, self.brief@)
                    && fs@[2].name@ == "id"@ && is_str_value(fs@[2].value, self.object_id@),
            },
    {
        let mut fs: Vec<RecordField> = Vec::new();
        fs.push(RecordField { name: "title".to_owned(), value: DataValue::Str(self.title.clone()) });
        match &self.content {
            Option::Some(c) => {
                fs.push(
                    RecordField { name: "content".to_owned(), value: DataValue::Str(c.clone()) },
                );
            },
            Option::None => {},
        }
        fs.push(RecordField { name: "brief".to_owned(), value: DataValue::Str(self.brief.clone()) });
        fs.push(
            RecordField { name: "id".to_owned(), value: DataValue::Str(self.object_id.clone()) },
        );
        DataValue::Record(fs)
    }
}

} // verus!
