//! Trusted boundary to the `vt100` terminal emulator. A screen is an
//! opaque snapshot of terminal state; the only thing the library reads
//! from it is its flattened visible text, named `screen_contents`.

use vstd::prelude::*;

verus! {

#[verifier::external_type_specification]
#[verifier::external_body]
pub struct ExParser(vt100::Parser);

#[verifier::external_type_specification]
#[verifier::external_body]
pub struct ExScreen(vt100::Screen);

/// The flattened visible text of a screen snapshot: what
/// `vt100::Screen::contents` returns, a function of the screen alone.
pub uninterp spec fn screen_contents(s: vt100::Screen) -> Seq<char>;

/// Relies on `vt100::Parser::new`: builds a parser for a terminal of the
/// given size and scrollback length.
pub assume_specification[ vt100::Parser::new ](
    rows: u16,
    cols: u16,
    scrollback_len: usize,
) -> vt100::Parser;

/// Relies on `vt100::Parser::process`: feeds output bytes to the
/// terminal emulator, updating its in-memory screen.
pub assume_specification[ vt100::Parser::process ](p: &mut vt100::Parser, bytes: &[u8]);

/// Relies on `vt100::Parser::screen`: a reference to the parser's
/// current screen state.
pub assume_specification<'a>[ vt100::Parser::screen ](p: &'a vt100::Parser) -> &'a vt100::Screen;

/// Relies on the derived `Clone` of `vt100::Screen`: the copy is the
/// same snapshot.
pub assume_specification[ <vt100::Screen as Clone>::clone ](s: &vt100::Screen) -> (r:
    vt100::Screen)
    ensures
        r == *s,
;

/// Relies on `vt100::Screen::contents`: the flattened visible text of
/// the screen, which depends on the screen value alone.
#[verifier::external_body]
pub fn screen_contents_string(s: &vt100::Screen) -> (r: String)
    ensures
        r@ == screen_contents(*s),
{
    s.contents()
}

} // verus!
