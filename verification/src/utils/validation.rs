//! The text that reports failed validations of a request.

use vstd::prelude::*;
use crate::text::texts;

verus! {

/// The messages of one field.
#[derive(Clone, Debug, PartialEq, Eq)]
pub struct FieldErrors {
    pub field: String,
    pub messages: Vec<String>,
}

/// Texts joined by a separator.
pub open spec fn joined_with(parts: Seq<Seq<char>>, separator: Seq<char>) -> Seq<char>
    decreases parts.len(),
{
    if parts.len() == 0 {
        Seq::<char>::empty()
    } else if parts.len() == 1 {
        parts[0]
    } else {
        joined_with(parts.drop_last(), separator) + separator + parts.last()
    }
}

/// The line for one field: its name, a colon, its messages.
pub open spec fn field_line(errors: FieldErrors) -> Seq<char> {
    errors.field@ + ": "@ + joined_with(texts(errors.messages@), ", "@)
}

/// The lines of a list of fields.
pub open spec fn field_lines(errors: Seq<FieldErrors>) -> Seq<Seq<char>> {
    Seq::new(errors.len(), |i: int| field_line(errors[i]))
}

/// The whole report: the fields' lines, joined by semicolons.
pub open spec fn validation_text(errors: Seq<FieldErrors>) -> Seq<char> {
    joined_with(field_lines(errors), "; "@)
}

/// Joins messages by a separator.
pub fn join_messages(messages: &Vec<String>, separator: &str) -> (text: String)
    ensures
        text@ == joined_with(texts(messages@), separator@),
{
    let mut text: String = String::new();
    let n: usize = messages.len();
    let mut i: usize = 0;
    while i < n
        invariant
            n == messages@.len(),
            i <= n,
            text@ == joined_with(texts(messages@).take(i as int), separator@),
        decreases n - i,
    {
        proof {
            let upto = texts(messages@).take(i + 1);
            assert(upto.drop_last() =~= texts(messages@).take(i as int));
            assert(upto.last() == messages@[i as int]@);
            if i == 0 {
                assert(upto[0] == messages@[0]@);
                assert(Seq::<char>::empty() + messages@[0]@ =~= messages@[0]@);
            }
        }
        if i > 0 {
            text.append(separator);
        }
        text.append(messages[i].as_str());
        i = i + 1;
    }
    assert(texts(messages@).take(n as int) =~= texts(messages@));
    text
}

/// Builds the report of failed validations, field by field, in the order given.
pub fn validation_message(errors: &Vec<FieldErrors>) -> (text: String)
    ensures
        text@ == validation_text(errors@),
{
    let mut lines: Vec<String> = Vec::new();
    let n: usize = errors.len();
    let mut i: usize = 0;
    while i < n
        invariant
            n == errors@.len(),
            i <= n,
            lines@.len() == i,
            forall|k: int| 0 <= k < i ==> (#[trigger] lines@[k])@ == field_line(errors@[k]),
        decreases n - i,
    {
        let mut line: String = String::from_str(errors[i].field.as_str());
        line.append(": ");
        let listed: String = join_messages(&errors[i].messages, ", ");
        line.append(listed.as_str());
        lines.push(line);
        i = i + 1;
    }
    assert(texts(lines@) =~= field_lines(errors@));
    join_messages(&lines, "; ")
}

} // verus!
