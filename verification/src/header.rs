//! The capability shared by every header family.

use vstd::prelude::*;

verus! {

/// A response header: a fixed field name and a field value rendered from
/// the header's own state.
///
/// Anything that can give these two texts can be added to a policy set.
/// Both are meant to be functions of the header alone; of a header family
/// of this library that is stated and proved, see [`Rendering`].
pub trait Header {
    /// The field name under which the header is sent.
    fn name(&self) -> &'static str;

    /// The field value, rendered from the header's current state.
    fn value(&self) -> String;
}

/// A rendered header line: the field name and the field value.
pub type Line = (Seq<char>, Seq<char>);

/// Whether `line` is a rendering of `header`: a name that `name` may return
/// together with a value that `value` may return.
pub open spec fn renders<H: Header>(header: &H, line: Line) -> bool {
    exists|name: &'static str, value: String|
        #![trigger call_ensures(H::name, (header,), name), call_ensures(H::value, (header,), value)]
        call_ensures(H::name, (header,), name) && call_ensures(H::value, (header,), value) && line
            == (name@, value@)
}

/// A header family whose rendering is stated: the line is a function of
/// the header's state, given by two specification functions.
pub trait Rendering: Header + Sized {
    /// The field name of the header.
    spec fn name_text(&self) -> Seq<char>;

    /// The field value of the header.
    spec fn value_text(&self) -> Seq<char>;

    /// Whatever `name` and `value` return, it is the stated line.
    proof fn lemma_rendering(&self, line: Line)
        requires
            renders(self, line),
        ensures
            line == (self.name_text(), self.value_text()),
    ;
}

/// The line of a header whose rendering is stated.
pub open spec fn line_of<H: Rendering>(header: &H) -> Line {
    (header.name_text(), header.value_text())
}

/// Rendering is a pure function: two renderings of the same header are the
/// same line, character for character.
pub proof fn lemma_rendering_is_deterministic<H: Rendering>(header: &H, first: Line, second: Line)
    requires
        renders(header, first),
        renders(header, second),
    ensures
        first == second,
        first == line_of(header),
{
    header.lemma_rendering(first);
    header.lemma_rendering(second);
}

} // verus!
