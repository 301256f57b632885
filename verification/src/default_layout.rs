//! The factory key layout: the canonical assignment of symbolic codes to the
//! physical key matrix (five main rows on each hand plus both thumb
//! clusters). Pure configuration data; positions the legend does not cover
//! are simply absent and resolve to the sentinel on lookup.

use vstd::prelude::*;

use crate::buffer::KeymapBuffer;
use crate::keycodes::KeyboardUsage;

verus! {

/// The factory position-to-code mapping.
pub open spec fn default_map() -> Map<(usize, usize), KeyboardUsage> {
    Map::empty()
        .insert((0, 0), KeyboardUsage::KeyboardEscape)
        .insert((0, 1), KeyboardUsage::Keyboard1Exclamation)
        .insert((0, 2), KeyboardUsage::Keyboard2At)
        .insert((0, 3), KeyboardUsage::Keyboard3Hash)
        .insert((0, 4), KeyboardUsage::Keyboard4Dollar)
        .insert((0, 5), KeyboardUsage::Keyboard5Percent)
        .insert((0, 6), KeyboardUsage::Keyboard6Caret)
        .insert((1, 0), KeyboardUsage::KeyboardTab)
        .insert((1, 1), KeyboardUsage::KeyboardQq)
        .insert((1, 2), KeyboardUsage::KeyboardWw)
        .insert((1, 3), KeyboardUsage::KeyboardEe)
        .insert((1, 4), KeyboardUsage::KeyboardRr)
        .insert((1, 5), KeyboardUsage::KeyboardTt)
        .insert((1, 6), KeyboardUsage::KeyboardYy)
        .insert((2, 0), KeyboardUsage::KeyboardCapsLock)
        .insert((2, 1), KeyboardUsage::KeyboardAa)
        .insert((2, 2), KeyboardUsage::KeyboardSs)
        .insert((2, 3), KeyboardUsage::KeyboardDd)
        .insert((2, 4), KeyboardUsage::KeyboardFf)
        .insert((2, 5), KeyboardUsage::KeyboardGg)
        .insert((2, 6), KeyboardUsage::KeyboardHh)
        .insert((3, 0), KeyboardUsage::KeyboardLeftShift)
        .insert((3, 1), KeyboardUsage::KeyboardZz)
        .insert((3, 2), KeyboardUsage::KeyboardXx)
        .insert((3, 3), KeyboardUsage::KeyboardCc)
        .insert((3, 4), KeyboardUsage::KeyboardVv)
        .insert((3, 5), KeyboardUsage::KeyboardBb)
        .insert((4, 0), KeyboardUsage::KeyboardLeftControl)
        .insert((4, 1), KeyboardUsage::KeyboardLeftAlt)
        .insert((4, 2), KeyboardUsage::KeyboardLeftGUI)
        .insert((4, 3), KeyboardUsage::KeyboardLower)
        .insert((0, 7), KeyboardUsage::Keyboard7Ampersand)
        .insert((0, 8), KeyboardUsage::Keyboard8Asterisk)
        .insert((0, 9), KeyboardUsage::Keyboard9OpenParens)
        .insert((0, 10), KeyboardUsage::Keyboard0CloseParens)
        .insert((0, 11), KeyboardUsage::KeyboardDashUnderscore)
        .insert((0, 12), KeyboardUsage::KeyboardEqualPlus)
        .insert((0, 13), KeyboardUsage::KeyboardBackspace)
        .insert((1, 7), KeyboardUsage::KeyboardUu)
        .insert((1, 8), KeyboardUsage::KeyboardIi)
        .insert((1, 9), KeyboardUsage::KeyboardOo)
        .insert((1, 10), KeyboardUsage::KeyboardPp)
        .insert((1, 11), KeyboardUsage::KeyboardOpenBracketBrace)
        .insert((1, 12), KeyboardUsage::KeyboardCloseBracketBrace)
        .insert((1, 13), KeyboardUsage::KeyboardBackslashBar)
        .insert((2, 7), KeyboardUsage::KeyboardJj)
        .insert((2, 8), KeyboardUsage::KeyboardKk)
        .insert((2, 9), KeyboardUsage::KeyboardLl)
        .insert((2, 10), KeyboardUsage::KeyboardSemiColon)
        .insert((2, 11), KeyboardUsage::KeyboardSingleDoubleQuote)
        .insert((2, 12), KeyboardUsage::KeyboardEnter)
        .insert((2, 13), KeyboardUsage::KeyboardEmpty)
        .insert((3, 8), KeyboardUsage::KeyboardNn)
        .insert((3, 9), KeyboardUsage::KeyboardMm)
        .insert((3, 10), KeyboardUsage::KeyboardCommaLess)
        .insert((3, 11), KeyboardUsage::KeyboardPeriodGreater)
        .insert((3, 12), KeyboardUsage::KeyboardSlashQuestion)
        .insert((3, 13), KeyboardUsage::KeyboardRightShift)
        .insert((4, 10), KeyboardUsage::KeyboardRaise)
        .insert((4, 11), KeyboardUsage::KeyboardRightGUI)
        .insert((4, 12), KeyboardUsage::KeyboardRightAlt)
        .insert((4, 13), KeyboardUsage::KeyboardRightControl)
        .insert((5, 5), KeyboardUsage::KeyboardHome)
        .insert((5, 6), KeyboardUsage::KeyboardEnd)
        .insert((6, 5), KeyboardUsage::KeyboardPageUp)
        .insert((6, 6), KeyboardUsage::KeyboardPageDown)
        .insert((7, 5), KeyboardUsage::KeyboardSpacebar)
        .insert((7, 6), KeyboardUsage::KeyboardBackspace)
        .insert((5, 8), KeyboardUsage::KeyboardLeftArrow)
        .insert((5, 9), KeyboardUsage::KeyboardRightArrow)
        .insert((6, 7), KeyboardUsage::KeyboardUpArrow)
        .insert((6, 8), KeyboardUsage::KeyboardDownArrow)
        .insert((7, 7), KeyboardUsage::KeyboardDelete)
        .insert((7, 8), KeyboardUsage::KeyboardEnter)
}

/// Build the factory layout as a buffer.
pub fn default_layout() -> (b: KeymapBuffer)
    ensures
        b.wf(),
        b@ == default_map(),
{
    let mut b = KeymapBuffer::new();
    b.set(0, 0, KeyboardUsage::KeyboardEscape);
    b.set(0, 1, KeyboardUsage::Keyboard1Exclamation);
    b.set(0, 2, KeyboardUsage::Keyboard2At);
    b.set(0, 3, KeyboardUsage::Keyboard3Hash);
    b.set(0, 4, KeyboardUsage::Keyboard4Dollar);
    b.set(0, 5, KeyboardUsage::Keyboard5Percent);
    b.set(0, 6, KeyboardUsage::Keyboard6Caret);
    b.set(1, 0, KeyboardUsage::KeyboardTab);
    b.set(1, 1, KeyboardUsage::KeyboardQq);
    b.set(1, 2, KeyboardUsage::KeyboardWw);
    b.set(1, 3, KeyboardUsage::KeyboardEe);
    b.set(1, 4, KeyboardUsage::KeyboardRr);
    b.set(1, 5, KeyboardUsage::KeyboardTt);
    b.set(1, 6, KeyboardUsage::KeyboardYy);
    b.set(2, 0, KeyboardUsage::KeyboardCapsLock);
    b.set(2, 1, KeyboardUsage::KeyboardAa);
    b.set(2, 2, KeyboardUsage::KeyboardSs);
    b.set(2, 3, KeyboardUsage::KeyboardDd);
    b.set(2, 4, KeyboardUsage::KeyboardFf);
    b.set(2, 5, KeyboardUsage::KeyboardGg);
    b.set(2, 6, KeyboardUsage::KeyboardHh);
    b.set(3, 0, KeyboardUsage::KeyboardLeftShift);
    b.set(3, 1, KeyboardUsage::KeyboardZz);
    b.set(3, 2, KeyboardUsage::KeyboardXx);
    b.set(3, 3, KeyboardUsage::KeyboardCc);
    b.set(3, 4, KeyboardUsage::KeyboardVv);
    b.set(3, 5, KeyboardUsage::KeyboardBb);
    b.set(4, 0, KeyboardUsage::KeyboardLeftControl);
    b.set(4, 1, KeyboardUsage::KeyboardLeftAlt);
    b.set(4, 2, KeyboardUsage::KeyboardLeftGUI);
    b.set(4, 3, KeyboardUsage::KeyboardLower);
    b.set(0, 7, KeyboardUsage::Keyboard7Ampersand);
    b.set(0, 8, KeyboardUsage::Keyboard8Asterisk);
    b.set(0, 9, KeyboardUsage::Keyboard9OpenParens);
    b.set(0, 10, KeyboardUsage::Keyboard0CloseParens);
    b.set(0, 11, KeyboardUsage::KeyboardDashUnderscore);
    b.set(0, 12, KeyboardUsage::KeyboardEqualPlus);
    b.set(0, 13, KeyboardUsage::KeyboardBackspace);
    b.set(1, 7, KeyboardUsage::KeyboardUu);
    b.set(1, 8, KeyboardUsage::KeyboardIi);
    b.set(1, 9, KeyboardUsage::KeyboardOo);
    b.set(1, 10, KeyboardUsage::KeyboardPp);
    b.set(1, 11, KeyboardUsage::KeyboardOpenBracketBrace);
    b.set(1, 12, KeyboardUsage::KeyboardCloseBracketBrace);
    b.set(1, 13, KeyboardUsage::KeyboardBackslashBar);
    b.set(2, 7, KeyboardUsage::KeyboardJj);
    b.set(2, 8, KeyboardUsage::KeyboardKk);
    b.set(2, 9, KeyboardUsage::KeyboardLl);
    b.set(2, 10, KeyboardUsage::KeyboardSemiColon);
    b.set(2, 11, KeyboardUsage::KeyboardSingleDoubleQuote);
    b.set(2, 12, KeyboardUsage::KeyboardEnter);
    b.set(2, 13, KeyboardUsage::KeyboardEmpty);
    b.set(3, 8, KeyboardUsage::KeyboardNn);
    b.set(3, 9, KeyboardUsage::KeyboardMm);
    b.set(3, 10, KeyboardUsage::KeyboardCommaLess);
    b.set(3, 11, KeyboardUsage::KeyboardPeriodGreater);
    b.set(3, 12, KeyboardUsage::KeyboardSlashQuestion);
    b.set(3, 13, KeyboardUsage::KeyboardRightShift);
    b.set(4, 10, KeyboardUsage::KeyboardRaise);
    b.set(4, 11, KeyboardUsage::KeyboardRightGUI);
    b.set(4, 12, KeyboardUsage::KeyboardRightAlt);
    b.set(4, 13, KeyboardUsage::KeyboardRightControl);
    b.set(5, 5, KeyboardUsage::KeyboardHome);
    b.set(5, 6, KeyboardUsage::KeyboardEnd);
    b.set(6, 5, KeyboardUsage::KeyboardPageUp);
    b.set(6, 6, KeyboardUsage::KeyboardPageDown);
    b.set(7, 5, KeyboardUsage::KeyboardSpacebar);
    b.set(7, 6, KeyboardUsage::KeyboardBackspace);
    b.set(5, 8, KeyboardUsage::KeyboardLeftArrow);
    b.set(5, 9, KeyboardUsage::KeyboardRightArrow);
    b.set(6, 7, KeyboardUsage::KeyboardUpArrow);
    b.set(6, 8, KeyboardUsage::KeyboardDownArrow);
    b.set(7, 7, KeyboardUsage::KeyboardDelete);
    b.set(7, 8, KeyboardUsage::KeyboardEnter);
    b
}

} // verus!
