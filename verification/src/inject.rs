//! Injection: the rendered lines of a policy set, accepted by ntex once and
//! appended to the headers of every response.

use crate::field;
use crate::field::Fields;
use crate::field::HeaderField;
use crate::field::LineFault;
use crate::header::Line;
use ntex::http::HeaderMap;
use vstd::prelude::*;

verus! {

/// Why a policy set cannot be used: one of its lines is no header line.
#[derive(Clone, Copy, Debug, PartialEq, Eq, Structural)]
pub enum ConfigError {
    /// The name of the line at this position is no header name.
    InvalidHeaderName(usize),
    /// The value of the line at this position is no header value.
    InvalidHeaderValue(usize),
}

impl ConfigError {
    /// The error in words.
    pub fn message(&self) -> (message: &'static str)
        ensures
            message@ == match self {
                ConfigError::InvalidHeaderName(_) => "invalid header name"@,
                ConfigError::InvalidHeaderValue(_) => "invalid header value"@,
            },
    {
        match self {
            ConfigError::InvalidHeaderName(_) => "invalid header name",
            ConfigError::InvalidHeaderValue(_) => "invalid header value",
        }
    }
}

/// Whether every line of a list is a header line.
pub open spec fn accepted(lines: Seq<Line>) -> bool {
    forall|i: int| 0 <= i < lines.len() ==> field::is_field_line(#[trigger] lines[i])
}

/// Whether `error` is the refusal of a list of lines: it names the first
/// line that is no header line, and in that line the name is judged before
/// the value.
pub open spec fn refuses(lines: Seq<Line>, error: ConfigError) -> bool {
    match error {
        ConfigError::InvalidHeaderName(index) => {
            &&& index < lines.len()
            &&& accepted(lines.take(index as int))
            &&& !field::is_field_name(lines[index as int].0)
        },
        ConfigError::InvalidHeaderValue(index) => {
            &&& index < lines.len()
            &&& accepted(lines.take(index as int))
            &&& field::is_field_name(lines[index as int].0)
            &&& !field::is_field_value(lines[index as int].1)
        },
    }
}

/// A header collection's fields after `lines` were appended to it, one
/// after the other.
pub open spec fn injected(fields: Fields, lines: Seq<Line>) -> Fields
    decreases lines.len(),
{
    if lines.len() == 0 {
        fields
    } else {
        field::appended(injected(fields, lines.drop_last()), lines.last())
    }
}

/// The values, as bytes, of those of `lines` whose name is filed under
/// `key`, in the order of the lines.
pub open spec fn sent_under(lines: Seq<Line>, key: Seq<char>) -> Seq<Seq<u8>>
    decreases lines.len(),
{
    if lines.len() == 0 {
        Seq::empty()
    } else if field::field_key(lines.last().0) == key {
        sent_under(lines.drop_last(), key).push(vstd::utf8::encode_utf8(lines.last().1))
    } else {
        sent_under(lines.drop_last(), key)
    }
}

/// The rendered lines of a policy set, each accepted by ntex, in the order
/// of the set.
///
/// An injector is made once and then used for every response: it never
/// changes, and nothing is rendered or parsed again.
pub struct Injector {
    fields: Vec<HeaderField>,
}

impl Injector {
    /// The lines that are injected, in order.
    pub closed spec fn view(&self) -> Seq<Line> {
        self.fields@.map_values(|field: HeaderField| field.line())
    }

    /// Has ntex accept every rendered line, in order, and stops at the first
    /// that it refuses.
    pub fn new(lines: &Vec<(&'static str, String)>) -> (made: Result<Self, ConfigError>)
        ensures
            match made {
                Ok(injector) => accepted(texts_of(lines@)) && injector@ == texts_of(lines@),
                Err(error) => refuses(texts_of(lines@), error),
            },
    {
        let mut fields: Vec<HeaderField> = Vec::new();
        let mut i: usize = 0;
        while i < lines.len()
            invariant
                i <= lines.len(),
                accepted(texts_of(lines@).take(i as int)),
                fields@.map_values(|field: HeaderField| field.line()) == texts_of(lines@).take(
                    i as int,
                ),
            decreases lines.len() - i,
        {
            let ghost next = texts_of(lines@).take(i + 1);
            proof {
                assert(next.drop_last() =~= texts_of(lines@).take(i as int));
                assert(next.last() == texts_of(lines@)[i as int]);
            }
            match HeaderField::parse(lines[i].0, lines[i].1.as_str()) {
                Ok(field) => {
                    fields.push(field);
                    proof {
                        assert(fields@.map_values(|field: HeaderField| field.line()) =~= next);
                        assert forall|k: int| 0 <= k < next.len() implies field::is_field_line(
                            #[trigger] next[k],
                        ) by {
                            if k < i {
                                assert(next[k] == texts_of(lines@).take(i as int)[k]);
                            }
                        }
                    }
                },
                Err(fault) => {
                    return Err(
                        match fault {
                            LineFault::Name => ConfigError::InvalidHeaderName(i),
                            LineFault::Value => ConfigError::InvalidHeaderValue(i),
                        },
                    );
                },
            }
            i += 1;
        }
        proof {
            assert(texts_of(lines@).take(lines.len() as int) =~= texts_of(lines@));
        }
        Ok(Injector { fields })
    }

    /// The number of lines that are injected.
    pub fn len(&self) -> (len: usize)
        ensures
            len == self@.len(),
    {
        self.fields.len()
    }

    /// Appends every line, in order, to a response's headers. What the
    /// headers held before stays: a value that stood under the same name
    /// now stands in front of the injected one.
    pub fn inject(&self, headers: &mut HeaderMap)
        ensures
            field::header_map_fields(*final(headers)) == injected(
                field::header_map_fields(*old(headers)),
                self@,
            ),
    {
        let mut i: usize = 0;
        while i < self.fields.len()
            invariant
                i <= self.fields.len(),
                field::header_map_fields(*headers) == injected(
                    field::header_map_fields(*old(headers)),
                    self@.take(i as int),
                ),
            decreases self.fields.len() - i,
        {
            proof {
                assert(self@.take(i + 1).drop_last() =~= self@.take(i as int));
            }
            self.fields[i].append_to(headers);
            i += 1;
        }
        proof {
            assert(self@.take(self.fields.len() as int) =~= self@);
        }
    }
}

/// The texts of a list of rendered lines.
pub open spec fn texts_of(lines: Seq<(&'static str, String)>) -> Seq<Line> {
    lines.map_values(|line: (&'static str, String)| (line.0@, line.1@))
}

/// A list of lines is either accepted or refused, and refused in one way
/// only: the outcome of preparing a policy set is a function of its lines.
pub proof fn lemma_refusal_is_unique(lines: Seq<Line>, first: ConfigError, second: ConfigError)
    requires
        refuses(lines, first),
        refuses(lines, second),
    ensures
        first == second,
        !accepted(lines),
{
    let i = match first {
        ConfigError::InvalidHeaderName(index) => index as int,
        ConfigError::InvalidHeaderValue(index) => index as int,
    };
    let j = match second {
        ConfigError::InvalidHeaderName(index) => index as int,
        ConfigError::InvalidHeaderValue(index) => index as int,
    };
    if i < j {
        assert(lines.take(j)[i] == lines[i]);
    }
    if j < i {
        assert(lines.take(i)[j] == lines[j]);
    }
}

/// Injection appends and never replaces: under every key the collection
/// holds what it held before, followed by the values of the injected lines
/// of that name, in the order of the lines. A key that no line names keeps
/// its values; a name that occurs in several lines gets one value for each.
pub proof fn lemma_injected_values(fields: Fields, lines: Seq<Line>, key: Seq<char>)
    ensures
        field::values_of(injected(fields, lines), key) == field::values_of(fields, key)
            + sent_under(lines, key),
    decreases lines.len(),
{
    if lines.len() == 0 {
        assert(field::values_of(fields, key) + Seq::<Seq<u8>>::empty() =~= field::values_of(
            fields,
            key,
        ));
    } else {
        lemma_injected_values(fields, lines.drop_last(), key);
        let before = injected(fields, lines.drop_last());
        let value = vstd::utf8::encode_utf8(lines.last().1);
        if field::field_key(lines.last().0) == key {
            assert(field::values_of(injected(fields, lines), key) =~= (field::values_of(fields, key)
                + sent_under(lines.drop_last(), key)).push(value));
            assert((field::values_of(fields, key) + sent_under(lines.drop_last(), key)).push(value)
                =~= field::values_of(fields, key) + sent_under(lines, key));
        }
    }
}

/// Injection files values under the names of the lines and nowhere else:
/// afterwards the collection has the keys that it had before and the keys
/// of the lines.
pub proof fn lemma_injected_keys(fields: Fields, lines: Seq<Line>, key: Seq<char>)
    ensures
        injected(fields, lines).dom().contains(key) <==> fields.dom().contains(key) || exists|
            i: int,
        |
            0 <= i < lines.len() && field::field_key(#[trigger] lines[i].0) == key,
    decreases lines.len(),
{
    if lines.len() > 0 {
        let front = lines.drop_last();
        lemma_injected_keys(fields, front, key);
        if exists|i: int| 0 <= i < lines.len() && field::field_key(#[trigger] lines[i].0) == key {
            let i = choose|i: int|
                0 <= i < lines.len() && field::field_key(#[trigger] lines[i].0) == key;
            if i < front.len() {
                assert(front[i] == lines[i]);
            }
        }
        if exists|i: int| 0 <= i < front.len() && field::field_key(#[trigger] front[i].0) == key {
            let i = choose|i: int|
                0 <= i < front.len() && field::field_key(#[trigger] front[i].0) == key;
            assert(front[i] == lines[i]);
        }
        if field::field_key(lines.last().0) == key {
            assert(field::field_key(lines[lines.len() - 1].0) == key);
        }
    }
}

/// No deduplication: when the last two lines are filed under the same
/// key, as two headers of one family are, both values stand under it, the
/// earlier line's in front of the later line's.
pub proof fn lemma_same_name_twice(fields: Fields, lines: Seq<Line>, first: Line, second: Line)
    requires
        field::field_key(first.0) == field::field_key(second.0),
    ensures
        field::values_of(
            injected(fields, lines.push(first).push(second)),
            field::field_key(first.0),
        ) == field::values_of(injected(fields, lines), field::field_key(first.0)).push(
            vstd::utf8::encode_utf8(first.1),
        ).push(vstd::utf8::encode_utf8(second.1)),
{
    let once = lines.push(first);
    let twice = once.push(second);
    assert(once.drop_last() =~= lines);
    assert(twice.drop_last() =~= once);
    assert(injected(fields, once) == field::appended(injected(fields, lines), first));
    assert(injected(fields, twice) == field::appended(injected(fields, once), second));
}

} // verus!
