//! The keycode codec: a total, bidirectional mapping between one-byte key
//! usage identifiers, symbolic key codes, and short display labels.
//!
//! Every byte in `0..=255` decodes to exactly one [`KeyboardUsage`] variant;
//! bytes in reserved or undefined ranges decode to the sentinel
//! [`KeyboardUsage::Reserved`]. Every variant encodes back to its fixed byte.
//! A subset of common variants carries a display label; labels resolve back
//! to their variant, and an unrecognized label resolves to the sentinel.

use vstd::prelude::*;
use vstd::string::StrSliceExecFns;
use vstd::string::StringSliceAdditionalSpecFns;

verus! {

/// One symbolic key code: a keyboard usage from the USB HID usage table
/// (section 10 of the usage-table specification), together with a few
/// product-specific extensions (`KeyboardRaise`, `KeyboardLower`,
/// `KeyboardEmpty`) and the catch-all sentinel `Reserved`.
#[derive(Clone, Copy, Debug, PartialEq, Eq, Hash, Structural)]
pub enum KeyboardUsage {
    KeyboardErrorRollOver,
    KeyboardPOSTFail,
    KeyboardErrorUndefined,
    KeyboardAa,
    KeyboardBb,
    KeyboardCc,
    KeyboardDd,
    KeyboardEe,
    KeyboardFf,
    KeyboardGg,
    KeyboardHh,
    KeyboardIi,
    KeyboardJj,
    KeyboardKk,
    KeyboardLl,
    KeyboardMm,
    KeyboardNn,
    KeyboardOo,
    KeyboardPp,
    KeyboardQq,
    KeyboardRr,
    KeyboardSs,
    KeyboardTt,
    KeyboardUu,
    KeyboardVv,
    KeyboardWw,
    KeyboardXx,
    KeyboardYy,
    KeyboardZz,
    Keyboard1Exclamation,
    Keyboard2At,
    Keyboard3Hash,
    Keyboard4Dollar,
    Keyboard5Percent,
    Keyboard6Caret,
    Keyboard7Ampersand,
    Keyboard8Asterisk,
    Keyboard9OpenParens,
    Keyboard0CloseParens,
    KeyboardEnter,
    KeyboardEscape,
    KeyboardBackspace,
    KeyboardTab,
    KeyboardSpacebar,
    KeyboardDashUnderscore,
    KeyboardEqualPlus,
    KeyboardOpenBracketBrace,
    KeyboardCloseBracketBrace,
    KeyboardBackslashBar,
    KeyboardNonUSHash,
    KeyboardSemiColon,
    KeyboardSingleDoubleQuote,
    KeyboardBacktickTilde,
    KeyboardCommaLess,
    KeyboardPeriodGreater,
    KeyboardSlashQuestion,
    KeyboardCapsLock,
    KeyboardF1,
    KeyboardF2,
    KeyboardF3,
    KeyboardF4,
    KeyboardF5,
    KeyboardF6,
    KeyboardF7,
    KeyboardF8,
    KeyboardF9,
    KeyboardF10,
    KeyboardF11,
    KeyboardF12,
    KeyboardPrintScreen,
    KeyboardScrollLock,
    KeyboardPause,
    KeyboardInsert,
    KeyboardHome,
    KeyboardPageUp,
    KeyboardDelete,
    KeyboardEnd,
    KeyboardPageDown,
    KeyboardRightArrow,
    KeyboardLeftArrow,
    KeyboardDownArrow,
    KeyboardUpArrow,
    KeypadNumLock,
    KeypadDivide,
    KeypadMultiply,
    KeypadMinus,
    KeypadPlus,
    KeypadEnter,
    Keypad1End,
    Keypad2DownArrow,
    Keypad3PageDown,
    Keypad4LeftArrow,
    Keypad5,
    Keypad6RightArrow,
    Keypad7Home,
    Keypad8UpArrow,
    Keypad9PageUp,
    Keypad0Insert,
    KeypadPeriodDelete,
    KeyboardNonUSSlash,
    KeyboardApplication,
    KeyboardPower,
    KeypadEqual,
    KeyboardF13,
    KeyboardF14,
    KeyboardF15,
    KeyboardF16,
    KeyboardF17,
    KeyboardF18,
    KeyboardF19,
    KeyboardF20,
    KeyboardF21,
    KeyboardF22,
    KeyboardF23,
    KeyboardF24,
    KeyboardExecute,
    KeyboardHelp,
    KeyboardMenu,
    KeyboardSelect,
    KeyboardStop,
    KeyboardAgain,
    KeyboardUndo,
    KeyboardCut,
    KeyboardCopy,
    KeyboardPaste,
    KeyboardFind,
    KeyboardMute,
    KeyboardVolumeUp,
    KeyboardVolumeDown,
    KeyboardLockingCapsLock,
    KeyboardLockingNumLock,
    KeyboardLockingScrollLock,
    KeypadComma,
    KeypadEqualSign,
    KeyboardInternational1,
    KeyboardInternational2,
    KeyboardInternational3,
    KeyboardInternational4,
    KeyboardInternational5,
    KeyboardInternational6,
    KeyboardInternational7,
    KeyboardInternational8,
    KeyboardInternational9,
    KeyboardLANG1,
    KeyboardLANG2,
    KeyboardLANG3,
    KeyboardLANG4,
    KeyboardLANG5,
    KeyboardLANG6,
    KeyboardLANG7,
    KeyboardLANG8,
    KeyboardLANG9,
    KeyboardAlternateErase,
    KeyboardSysReqAttention,
    KeyboardCancel,
    KeyboardClear,
    KeyboardPrior,
    KeyboardReturn,
    KeyboardSeparator,
    KeyboardOut,
    KeyboardOper,
    KeyboardClearAgain,
    KeyboardCrSelProps,
    KeyboardExSel,
    Keypad00,
    Keypad000,
    ThousandsSeparator,
    DecimalSeparator,
    CurrencyUnit,
    CurrencySubunit,
    KeypadOpenParens,
    KeypadCloseParens,
    KeypadOpenBrace,
    KeypadCloseBrace,
    KeypadTab,
    KeypadBackspace,
    KeypadA,
    KeypadB,
    KeypadC,
    KeypadD,
    KeypadE,
    KeypadF,
    KeypadBitwiseXor,
    KeypadLogicalXor,
    KeypadModulo,
    KeypadLeftShift,
    KeypadRightShift,
    KeypadBitwiseAnd,
    KeypadLogicalAnd,
    KeypadBitwiseOr,
    KeypadLogicalOr,
    KeypadColon,
    KeypadHash,
    KeypadSpace,
    KeypadAt,
    KeypadExclamation,
    KeypadMemoryStore,
    KeypadMemoryRecall,
    KeypadMemoryClear,
    KeypadMemoryAdd,
    KeypadMemorySubtract,
    KeypadMemoryMultiply,
    KeypadMemoryDivide,
    KeypadPositiveNegative,
    KeypadClear,
    KeypadClearEntry,
    KeypadBinary,
    KeypadOctal,
    KeypadDecimal,
    KeypadHexadecimal,
    KeyboardLeftControl,
    KeyboardLeftShift,
    KeyboardLeftAlt,
    KeyboardLeftGUI,
    KeyboardRightControl,
    KeyboardRightShift,
    KeyboardRightAlt,
    KeyboardRightGUI,
    Reserved,
    KeyboardRaise,
    KeyboardLower,
    KeyboardEmpty,
}

/// The fixed one-byte identifier of each symbolic code.
pub open spec fn byte_of(c: KeyboardUsage) -> u8 {
    match c {
        KeyboardUsage::KeyboardErrorRollOver => 0x01,
        KeyboardUsage::KeyboardPOSTFail => 0x02,
        KeyboardUsage::KeyboardErrorUndefined => 0x03,
        KeyboardUsage::KeyboardAa => 0x04,
        KeyboardUsage::KeyboardBb => 0x05,
        KeyboardUsage::KeyboardCc => 0x06,
        KeyboardUsage::KeyboardDd => 0x07,
        KeyboardUsage::KeyboardEe => 0x08,
        KeyboardUsage::KeyboardFf => 0x09,
        KeyboardUsage::KeyboardGg => 0x0A,
        KeyboardUsage::KeyboardHh => 0x0B,
        KeyboardUsage::KeyboardIi => 0x0C,
        KeyboardUsage::KeyboardJj => 0x0D,
        KeyboardUsage::KeyboardKk => 0x0E,
        KeyboardUsage::KeyboardLl => 0x0F,
        KeyboardUsage::KeyboardMm => 0x10,
        KeyboardUsage::KeyboardNn => 0x11,
        KeyboardUsage::KeyboardOo => 0x12,
        KeyboardUsage::KeyboardPp => 0x13,
        KeyboardUsage::KeyboardQq => 0x14,
        KeyboardUsage::KeyboardRr => 0x15,
        KeyboardUsage::KeyboardSs => 0x16,
        KeyboardUsage::KeyboardTt => 0x17,
        KeyboardUsage::KeyboardUu => 0x18,
        KeyboardUsage::KeyboardVv => 0x19,
        KeyboardUsage::KeyboardWw => 0x1A,
        KeyboardUsage::KeyboardXx => 0x1B,
        KeyboardUsage::KeyboardYy => 0x1C,
        KeyboardUsage::KeyboardZz => 0x1D,
        KeyboardUsage::Keyboard1Exclamation => 0x1E,
        KeyboardUsage::Keyboard2At => 0x1F,
        KeyboardUsage::Keyboard3Hash => 0x20,
        KeyboardUsage::Keyboard4Dollar => 0x21,
        KeyboardUsage::Keyboard5Percent => 0x22,
        KeyboardUsage::Keyboard6Caret => 0x23,
        KeyboardUsage::Keyboard7Ampersand => 0x24,
        KeyboardUsage::Keyboard8Asterisk => 0x25,
        KeyboardUsage::Keyboard9OpenParens => 0x26,
        KeyboardUsage::Keyboard0CloseParens => 0x27,
        KeyboardUsage::KeyboardEnter => 0x28,
        KeyboardUsage::KeyboardEscape => 0x29,
        KeyboardUsage::KeyboardBackspace => 0x2A,
        KeyboardUsage::KeyboardTab => 0x2B,
        KeyboardUsage::KeyboardSpacebar => 0x2C,
        KeyboardUsage::KeyboardDashUnderscore => 0x2D,
        KeyboardUsage::KeyboardEqualPlus => 0x2E,
        KeyboardUsage::KeyboardOpenBracketBrace => 0x2F,
        KeyboardUsage::KeyboardCloseBracketBrace => 0x30,
        KeyboardUsage::KeyboardBackslashBar => 0x31,
        KeyboardUsage::KeyboardNonUSHash => 0x32,
        KeyboardUsage::KeyboardSemiColon => 0x33,
        KeyboardUsage::KeyboardSingleDoubleQuote => 0x34,
        KeyboardUsage::KeyboardBacktickTilde => 0x35,
        KeyboardUsage::KeyboardCommaLess => 0x36,
        KeyboardUsage::KeyboardPeriodGreater => 0x37,
        KeyboardUsage::KeyboardSlashQuestion => 0x38,
        KeyboardUsage::KeyboardCapsLock => 0x39,
        KeyboardUsage::KeyboardF1 => 0x3A,
        KeyboardUsage::KeyboardF2 => 0x3B,
        KeyboardUsage::KeyboardF3 => 0x3C,
        KeyboardUsage::KeyboardF4 => 0x3D,
        KeyboardUsage::KeyboardF5 => 0x3E,
        KeyboardUsage::KeyboardF6 => 0x3F,
        KeyboardUsage::KeyboardF7 => 0x40,
        KeyboardUsage::KeyboardF8 => 0x41,
        KeyboardUsage::KeyboardF9 => 0x42,
        KeyboardUsage::KeyboardF10 => 0x43,
        KeyboardUsage::KeyboardF11 => 0x44,
        KeyboardUsage::KeyboardF12 => 0x45,
        KeyboardUsage::KeyboardPrintScreen => 0x46,
        KeyboardUsage::KeyboardScrollLock => 0x47,
        KeyboardUsage::KeyboardPause => 0x48,
        KeyboardUsage::KeyboardInsert => 0x49,
        KeyboardUsage::KeyboardHome => 0x4A,
        KeyboardUsage::KeyboardPageUp => 0x4B,
        KeyboardUsage::KeyboardDelete => 0x4C,
        KeyboardUsage::KeyboardEnd => 0x4D,
        KeyboardUsage::KeyboardPageDown => 0x4E,
        KeyboardUsage::KeyboardRightArrow => 0x4F,
        KeyboardUsage::KeyboardLeftArrow => 0x50,
        KeyboardUsage::KeyboardDownArrow => 0x51,
        KeyboardUsage::KeyboardUpArrow => 0x52,
        KeyboardUsage::KeypadNumLock => 0x53,
        KeyboardUsage::KeypadDivide => 0x54,
        KeyboardUsage::KeypadMultiply => 0x55,
        KeyboardUsage::KeypadMinus => 0x56,
        KeyboardUsage::KeypadPlus => 0x57,
        KeyboardUsage::KeypadEnter => 0x58,
        KeyboardUsage::Keypad1End => 0x59,
        KeyboardUsage::Keypad2DownArrow => 0x5A,
        KeyboardUsage::Keypad3PageDown => 0x5B,
        KeyboardUsage::Keypad4LeftArrow => 0x5C,
        KeyboardUsage::Keypad5 => 0x5D,
        KeyboardUsage::Keypad6RightArrow => 0x5E,
        KeyboardUsage::Keypad7Home => 0x5F,
        KeyboardUsage::Keypad8UpArrow => 0x60,
        KeyboardUsage::Keypad9PageUp => 0x61,
        KeyboardUsage::Keypad0Insert => 0x62,
        KeyboardUsage::KeypadPeriodDelete => 0x63,
        KeyboardUsage::KeyboardNonUSSlash => 0x64,
        KeyboardUsage::KeyboardApplication => 0x65,
        KeyboardUsage::KeyboardPower => 0x66,
        KeyboardUsage::KeypadEqual => 0x67,
        KeyboardUsage::KeyboardF13 => 0x68,
        KeyboardUsage::KeyboardF14 => 0x69,
        KeyboardUsage::KeyboardF15 => 0x6A,
        KeyboardUsage::KeyboardF16 => 0x6B,
        KeyboardUsage::KeyboardF17 => 0x6C,
        KeyboardUsage::KeyboardF18 => 0x6D,
        KeyboardUsage::KeyboardF19 => 0x6E,
        KeyboardUsage::KeyboardF20 => 0x6F,
        KeyboardUsage::KeyboardF21 => 0x70,
        KeyboardUsage::KeyboardF22 => 0x71,
        KeyboardUsage::KeyboardF23 => 0x72,
        KeyboardUsage::KeyboardF24 => 0x73,
        KeyboardUsage::KeyboardExecute => 0x74,
        KeyboardUsage::KeyboardHelp => 0x75,
        KeyboardUsage::KeyboardMenu => 0x76,
        KeyboardUsage::KeyboardSelect => 0x77,
        KeyboardUsage::KeyboardStop => 0x78,
        KeyboardUsage::KeyboardAgain => 0x79,
        KeyboardUsage::KeyboardUndo => 0x7A,
        KeyboardUsage::KeyboardCut => 0x7B,
        KeyboardUsage::KeyboardCopy => 0x7C,
        KeyboardUsage::KeyboardPaste => 0x7D,
        KeyboardUsage::KeyboardFind => 0x7E,
        KeyboardUsage::KeyboardMute => 0x7F,
        KeyboardUsage::KeyboardVolumeUp => 0x80,
        KeyboardUsage::KeyboardVolumeDown => 0x81,
        KeyboardUsage::KeyboardLockingCapsLock => 0x82,
        KeyboardUsage::KeyboardLockingNumLock => 0x83,
        KeyboardUsage::KeyboardLockingScrollLock => 0x84,
        KeyboardUsage::KeypadComma => 0x85,
        KeyboardUsage::KeypadEqualSign => 0x86,
        KeyboardUsage::KeyboardInternational1 => 0x87,
        KeyboardUsage::KeyboardInternational2 => 0x88,
        KeyboardUsage::KeyboardInternational3 => 0x89,
        KeyboardUsage::KeyboardInternational4 => 0x8A,
        KeyboardUsage::KeyboardInternational5 => 0x8B,
        KeyboardUsage::KeyboardInternational6 => 0x8C,
        KeyboardUsage::KeyboardInternational7 => 0x8D,
        KeyboardUsage::KeyboardInternational8 => 0x8E,
        KeyboardUsage::KeyboardInternational9 => 0x8F,
        KeyboardUsage::KeyboardLANG1 => 0x90,
        KeyboardUsage::KeyboardLANG2 => 0x91,
        KeyboardUsage::KeyboardLANG3 => 0x92,
        KeyboardUsage::KeyboardLANG4 => 0x93,
        KeyboardUsage::KeyboardLANG5 => 0x94,
        KeyboardUsage::KeyboardLANG6 => 0x95,
        KeyboardUsage::KeyboardLANG7 => 0x96,
        KeyboardUsage::KeyboardLANG8 => 0x97,
        KeyboardUsage::KeyboardLANG9 => 0x98,
        KeyboardUsage::KeyboardAlternateErase => 0x99,
        KeyboardUsage::KeyboardSysReqAttention => 0x9A,
        KeyboardUsage::KeyboardCancel => 0x9B,
        KeyboardUsage::KeyboardClear => 0x9C,
        KeyboardUsage::KeyboardPrior => 0x9D,
        KeyboardUsage::KeyboardReturn => 0x9E,
        KeyboardUsage::KeyboardSeparator => 0x9F,
        KeyboardUsage::KeyboardOut => 0xA0,
        KeyboardUsage::KeyboardOper => 0xA1,
        KeyboardUsage::KeyboardClearAgain => 0xA2,
        KeyboardUsage::KeyboardCrSelProps => 0xA3,
        KeyboardUsage::KeyboardExSel => 0xA4,
        KeyboardUsage::Keypad00 => 0xB0,
        KeyboardUsage::Keypad000 => 0xB1,
        KeyboardUsage::ThousandsSeparator => 0xB2,
        KeyboardUsage::DecimalSeparator => 0xB3,
        KeyboardUsage::CurrencyUnit => 0xB4,
        KeyboardUsage::CurrencySubunit => 0xB5,
        KeyboardUsage::KeypadOpenParens => 0xB6,
        KeyboardUsage::KeypadCloseParens => 0xB7,
        KeyboardUsage::KeypadOpenBrace => 0xB8,
        KeyboardUsage::KeypadCloseBrace => 0xB9,
        KeyboardUsage::KeypadTab => 0xBA,
        KeyboardUsage::KeypadBackspace => 0xBB,
        KeyboardUsage::KeypadA => 0xBC,
        KeyboardUsage::KeypadB => 0xBD,
        KeyboardUsage::KeypadC => 0xBE,
        KeyboardUsage::KeypadD => 0xBF,
        KeyboardUsage::KeypadE => 0xC0,
        KeyboardUsage::KeypadF => 0xC1,
        KeyboardUsage::KeypadBitwiseXor => 0xC2,
        KeyboardUsage::KeypadLogicalXor => 0xC3,
        KeyboardUsage::KeypadModulo => 0xC4,
        KeyboardUsage::KeypadLeftShift => 0xC5,
        KeyboardUsage::KeypadRightShift => 0xC6,
        KeyboardUsage::KeypadBitwiseAnd => 0xC7,
        KeyboardUsage::KeypadLogicalAnd => 0xC8,
        KeyboardUsage::KeypadBitwiseOr => 0xC9,
        KeyboardUsage::KeypadLogicalOr => 0xCA,
        KeyboardUsage::KeypadColon => 0xCB,
        KeyboardUsage::KeypadHash => 0xCC,
        KeyboardUsage::KeypadSpace => 0xCD,
        KeyboardUsage::KeypadAt => 0xCE,
        KeyboardUsage::KeypadExclamation => 0xCF,
        KeyboardUsage::KeypadMemoryStore => 0xD0,
        KeyboardUsage::KeypadMemoryRecall => 0xD1,
        KeyboardUsage::KeypadMemoryClear => 0xD2,
        KeyboardUsage::KeypadMemoryAdd => 0xD3,
        KeyboardUsage::KeypadMemorySubtract => 0xD4,
        KeyboardUsage::KeypadMemoryMultiply => 0xD5,
        KeyboardUsage::KeypadMemoryDivide => 0xD6,
        KeyboardUsage::KeypadPositiveNegative => 0xD7,
        KeyboardUsage::KeypadClear => 0xD8,
        KeyboardUsage::KeypadClearEntry => 0xD9,
        KeyboardUsage::KeypadBinary => 0xDA,
        KeyboardUsage::KeypadOctal => 0xDB,
        KeyboardUsage::KeypadDecimal => 0xDC,
        KeyboardUsage::KeypadHexadecimal => 0xDD,
        KeyboardUsage::KeyboardLeftControl => 0xE0,
        KeyboardUsage::KeyboardLeftShift => 0xE1,
        KeyboardUsage::KeyboardLeftAlt => 0xE2,
        KeyboardUsage::KeyboardLeftGUI => 0xE3,
        KeyboardUsage::KeyboardRightControl => 0xE4,
        KeyboardUsage::KeyboardRightShift => 0xE5,
        KeyboardUsage::KeyboardRightAlt => 0xE6,
        KeyboardUsage::KeyboardRightGUI => 0xE7,
        KeyboardUsage::Reserved => 0xE8,
        KeyboardUsage::KeyboardRaise => 0xE9,
        KeyboardUsage::KeyboardLower => 0xEA,
        KeyboardUsage::KeyboardEmpty => 0xFF,
    }
}

/// The symbolic code a byte decodes to. Total: every byte resolves to
/// exactly one variant, and every byte without an assigned variant (including
/// the reserved blocks) resolves to the sentinel `Reserved`.
pub open spec fn usage_of_byte(b: u8) -> KeyboardUsage {
    if b == 0x01 {
        KeyboardUsage::KeyboardErrorRollOver
    } else if b == 0x02 {
        KeyboardUsage::KeyboardPOSTFail
    } else if b == 0x03 {
        KeyboardUsage::KeyboardErrorUndefined
    } else if b == 0x04 {
        KeyboardUsage::KeyboardAa
    } else if b == 0x05 {
        KeyboardUsage::KeyboardBb
    } else if b == 0x06 {
        KeyboardUsage::KeyboardCc
    } else if b == 0x07 {
        KeyboardUsage::KeyboardDd
    } else if b == 0x08 {
        KeyboardUsage::KeyboardEe
    } else if b == 0x09 {
        KeyboardUsage::KeyboardFf
    } else if b == 0x0A {
        KeyboardUsage::KeyboardGg
    } else if b == 0x0B {
        KeyboardUsage::KeyboardHh
    } else if b == 0x0C {
        KeyboardUsage::KeyboardIi
    } else if b == 0x0D {
        KeyboardUsage::KeyboardJj
    } else if b == 0x0E {
        KeyboardUsage::KeyboardKk
    } else if b == 0x0F {
        KeyboardUsage::KeyboardLl
    } else if b == 0x10 {
        KeyboardUsage::KeyboardMm
    } else if b == 0x11 {
        KeyboardUsage::KeyboardNn
    } else if b == 0x12 {
        KeyboardUsage::KeyboardOo
    } else if b == 0x13 {
        KeyboardUsage::KeyboardPp
    } else if b == 0x14 {
        KeyboardUsage::KeyboardQq
    } else if b == 0x15 {
        KeyboardUsage::KeyboardRr
    } else if b == 0x16 {
        KeyboardUsage::KeyboardSs
    } else if b == 0x17 {
        KeyboardUsage::KeyboardTt
    } else if b == 0x18 {
        KeyboardUsage::KeyboardUu
    } else if b == 0x19 {
        KeyboardUsage::KeyboardVv
    } else if b == 0x1A {
        KeyboardUsage::KeyboardWw
    } else if b == 0x1B {
        KeyboardUsage::KeyboardXx
    } else if b == 0x1C {
        KeyboardUsage::KeyboardYy
    } else if b == 0x1D {
        KeyboardUsage::KeyboardZz
    } else if b == 0x1E {
        KeyboardUsage::Keyboard1Exclamation
    } else if b == 0x1F {
        KeyboardUsage::Keyboard2At
    } else if b == 0x20 {
        KeyboardUsage::Keyboard3Hash
    } else if b == 0x21 {
        KeyboardUsage::Keyboard4Dollar
    } else if b == 0x22 {
        KeyboardUsage::Keyboard5Percent
    } else if b == 0x23 {
        KeyboardUsage::Keyboard6Caret
    } else if b == 0x24 {
        KeyboardUsage::Keyboard7Ampersand
    } else if b == 0x25 {
        KeyboardUsage::Keyboard8Asterisk
    } else if b == 0x26 {
        KeyboardUsage::Keyboard9OpenParens
    } else if b == 0x27 {
        KeyboardUsage::Keyboard0CloseParens
    } else if b == 0x28 {
        KeyboardUsage::KeyboardEnter
    } else if b == 0x29 {
        KeyboardUsage::KeyboardEscape
    } else if b == 0x2A {
        KeyboardUsage::KeyboardBackspace
    } else if b == 0x2B {
        KeyboardUsage::KeyboardTab
    } else if b == 0x2C {
        KeyboardUsage::KeyboardSpacebar
    } else if b == 0x2D {
        KeyboardUsage::KeyboardDashUnderscore
    } else if b == 0x2E {
        KeyboardUsage::KeyboardEqualPlus
    } else if b == 0x2F {
        KeyboardUsage::KeyboardOpenBracketBrace
    } else if b == 0x30 {
        KeyboardUsage::KeyboardCloseBracketBrace
    } else if b == 0x31 {
        KeyboardUsage::KeyboardBackslashBar
    } else if b == 0x32 {
        KeyboardUsage::KeyboardNonUSHash
    } else if b == 0x33 {
        KeyboardUsage::KeyboardSemiColon
    } else if b == 0x34 {
        KeyboardUsage::KeyboardSingleDoubleQuote
    } else if b == 0x35 {
        KeyboardUsage::KeyboardBacktickTilde
    } else if b == 0x36 {
        KeyboardUsage::KeyboardCommaLess
    } else if b == 0x37 {
        KeyboardUsage::KeyboardPeriodGreater
    } else if b == 0x38 {
        KeyboardUsage::KeyboardSlashQuestion
    } else if b == 0x39 {
        KeyboardUsage::KeyboardCapsLock
    } else if b == 0x3A {
        KeyboardUsage::KeyboardF1
    } else if b == 0x3B {
        KeyboardUsage::KeyboardF2
    } else if b == 0x3C {
        KeyboardUsage::KeyboardF3
    } else if b == 0x3D {
        KeyboardUsage::KeyboardF4
    } else if b == 0x3E {
        KeyboardUsage::KeyboardF5
    } else if b == 0x3F {
        KeyboardUsage::KeyboardF6
    } else if b == 0x40 {
        KeyboardUsage::KeyboardF7
    } else if b == 0x41 {
        KeyboardUsage::KeyboardF8
    } else if b == 0x42 {
        KeyboardUsage::KeyboardF9
    } else if b == 0x43 {
        KeyboardUsage::KeyboardF10
    } else if b == 0x44 {
        KeyboardUsage::KeyboardF11
    } else if b == 0x45 {
        KeyboardUsage::KeyboardF12
    } else if b == 0x46 {
        KeyboardUsage::KeyboardPrintScreen
    } else if b == 0x47 {
        KeyboardUsage::KeyboardScrollLock
    } else if b == 0x48 {
        KeyboardUsage::KeyboardPause
    } else if b == 0x49 {
        KeyboardUsage::KeyboardInsert
    } else if b == 0x4A {
        KeyboardUsage::KeyboardHome
    } else if b == 0x4B {
        KeyboardUsage::KeyboardPageUp
    } else if b == 0x4C {
        KeyboardUsage::KeyboardDelete
    } else if b == 0x4D {
        KeyboardUsage::KeyboardEnd
    } else if b == 0x4E {
        KeyboardUsage::KeyboardPageDown
    } else if b == 0x4F {
        KeyboardUsage::KeyboardRightArrow
    } else if b == 0x50 {
        KeyboardUsage::KeyboardLeftArrow
    } else if b == 0x51 {
        KeyboardUsage::KeyboardDownArrow
    } else if b == 0x52 {
        KeyboardUsage::KeyboardUpArrow
    } else if b == 0x53 {
        KeyboardUsage::KeypadNumLock
    } else if b == 0x54 {
        KeyboardUsage::KeypadDivide
    } else if b == 0x55 {
        KeyboardUsage::KeypadMultiply
    } else if b == 0x56 {
        KeyboardUsage::KeypadMinus
    } else if b == 0x57 {
        KeyboardUsage::KeypadPlus
    } else if b == 0x58 {
        KeyboardUsage::KeypadEnter
    } else if b == 0x59 {
        KeyboardUsage::Keypad1End
    } else if b == 0x5A {
        KeyboardUsage::Keypad2DownArrow
    } else if b == 0x5B {
        KeyboardUsage::Keypad3PageDown
    } else if b == 0x5C {
        KeyboardUsage::Keypad4LeftArrow
    } else if b == 0x5D {
        KeyboardUsage::Keypad5
    } else if b == 0x5E {
        KeyboardUsage::Keypad6RightArrow
    } else if b == 0x5F {
        KeyboardUsage::Keypad7Home
    } else if b == 0x60 {
        KeyboardUsage::Keypad8UpArrow
    } else if b == 0x61 {
        KeyboardUsage::Keypad9PageUp
    } else if b == 0x62 {
        KeyboardUsage::Keypad0Insert
    } else if b == 0x63 {
        KeyboardUsage::KeypadPeriodDelete
    } else if b == 0x64 {
        KeyboardUsage::KeyboardNonUSSlash
    } else if b == 0x65 {
        KeyboardUsage::KeyboardApplication
    } else if b == 0x66 {
        KeyboardUsage::KeyboardPower
    } else if b == 0x67 {
        KeyboardUsage::KeypadEqual
    } else if b == 0x68 {
        KeyboardUsage::KeyboardF13
    } else if b == 0x69 {
        KeyboardUsage::KeyboardF14
    } else if b == 0x6A {
        KeyboardUsage::KeyboardF15
    } else if b == 0x6B {
        KeyboardUsage::KeyboardF16
    } else if b == 0x6C {
        KeyboardUsage::KeyboardF17
    } else if b == 0x6D {
        KeyboardUsage::KeyboardF18
    } else if b == 0x6E {
        KeyboardUsage::KeyboardF19
    } else if b == 0x6F {
        KeyboardUsage::KeyboardF20
    } else if b == 0x70 {
        KeyboardUsage::KeyboardF21
    } else if b == 0x71 {
        KeyboardUsage::KeyboardF22
    } else if b == 0x72 {
        KeyboardUsage::KeyboardF23
    } else if b == 0x73 {
        KeyboardUsage::KeyboardF24
    } else if b == 0x74 {
        KeyboardUsage::KeyboardExecute
    } else if b == 0x75 {
        KeyboardUsage::KeyboardHelp
    } else if b == 0x76 {
        KeyboardUsage::KeyboardMenu
    } else if b == 0x77 {
        KeyboardUsage::KeyboardSelect
    } else if b == 0x78 {
        KeyboardUsage::KeyboardStop
    } else if b == 0x79 {
        KeyboardUsage::KeyboardAgain
    } else if b == 0x7A {
        KeyboardUsage::KeyboardUndo
    } else if b == 0x7B {
        KeyboardUsage::KeyboardCut
    } else if b == 0x7C {
        KeyboardUsage::KeyboardCopy
    } else if b == 0x7D {
        KeyboardUsage::KeyboardPaste
    } else if b == 0x7E {
        KeyboardUsage::KeyboardFind
    } else if b == 0x7F {
        KeyboardUsage::KeyboardMute
    } else if b == 0x80 {
        KeyboardUsage::KeyboardVolumeUp
    } else if b == 0x81 {
        KeyboardUsage::KeyboardVolumeDown
    } else if b == 0x82 {
        KeyboardUsage::KeyboardLockingCapsLock
    } else if b == 0x83 {
        KeyboardUsage::KeyboardLockingNumLock
    } else if b == 0x84 {
        KeyboardUsage::KeyboardLockingScrollLock
    } else if b == 0x85 {
        KeyboardUsage::KeypadComma
    } else if b == 0x86 {
        KeyboardUsage::KeypadEqualSign
    } else if b == 0x87 {
        KeyboardUsage::KeyboardInternational1
    } else if b == 0x88 {
        KeyboardUsage::KeyboardInternational2
    } else if b == 0x89 {
        KeyboardUsage::KeyboardInternational3
    } else if b == 0x8A {
        KeyboardUsage::KeyboardInternational4
    } else if b == 0x8B {
        KeyboardUsage::KeyboardInternational5
    } else if b == 0x8C {
        KeyboardUsage::KeyboardInternational6
    } else if b == 0x8D {
        KeyboardUsage::KeyboardInternational7
    } else if b == 0x8E {
        KeyboardUsage::KeyboardInternational8
    } else if b == 0x8F {
        KeyboardUsage::KeyboardInternational9
    } else if b == 0x90 {
        KeyboardUsage::KeyboardLANG1
    } else if b == 0x91 {
        KeyboardUsage::KeyboardLANG2
    } else if b == 0x92 {
        KeyboardUsage::KeyboardLANG3
    } else if b == 0x93 {
        KeyboardUsage::KeyboardLANG4
    } else if b == 0x94 {
        KeyboardUsage::KeyboardLANG5
    } else if b == 0x95 {
        KeyboardUsage::KeyboardLANG6
    } else if b == 0x96 {
        KeyboardUsage::KeyboardLANG7
    } else if b == 0x97 {
        KeyboardUsage::KeyboardLANG8
    } else if b == 0x98 {
        KeyboardUsage::KeyboardLANG9
    } else if b == 0x99 {
        KeyboardUsage::KeyboardAlternateErase
    } else if b == 0x9A {
        KeyboardUsage::KeyboardSysReqAttention
    } else if b == 0x9B {
        KeyboardUsage::KeyboardCancel
    } else if b == 0x9C {
        KeyboardUsage::KeyboardClear
    } else if b == 0x9D {
        KeyboardUsage::KeyboardPrior
    } else if b == 0x9E {
        KeyboardUsage::KeyboardReturn
    } else if b == 0x9F {
        KeyboardUsage::KeyboardSeparator
    } else if b == 0xA0 {
        KeyboardUsage::KeyboardOut
    } else if b == 0xA1 {
        KeyboardUsage::KeyboardOper
    } else if b == 0xA2 {
        KeyboardUsage::KeyboardClearAgain
    } else if b == 0xA3 {
        KeyboardUsage::KeyboardCrSelProps
    } else if b == 0xA4 {
        KeyboardUsage::KeyboardExSel
    } else if b == 0xB0 {
        KeyboardUsage::Keypad00
    } else if b == 0xB1 {
        KeyboardUsage::Keypad000
    } else if b == 0xB2 {
        KeyboardUsage::ThousandsSeparator
    } else if b == 0xB3 {
        KeyboardUsage::DecimalSeparator
    } else if b == 0xB4 {
        KeyboardUsage::CurrencyUnit
    } else if b == 0xB5 {
        KeyboardUsage::CurrencySubunit
    } else if b == 0xB6 {
        KeyboardUsage::KeypadOpenParens
    } else if b == 0xB7 {
        KeyboardUsage::KeypadCloseParens
    } else if b == 0xB8 {
        KeyboardUsage::KeypadOpenBrace
    } else if b == 0xB9 {
        KeyboardUsage::KeypadCloseBrace
    } else if b == 0xBA {
        KeyboardUsage::KeypadTab
    } else if b == 0xBB {
        KeyboardUsage::KeypadBackspace
    } else if b == 0xBC {
        KeyboardUsage::KeypadA
    } else if b == 0xBD {
        KeyboardUsage::KeypadB
    } else if b == 0xBE {
        KeyboardUsage::KeypadC
    } else if b == 0xBF {
        KeyboardUsage::KeypadD
    } else if b == 0xC0 {
        KeyboardUsage::KeypadE
    } else if b == 0xC1 {
        KeyboardUsage::KeypadF
    } else if b == 0xC2 {
        KeyboardUsage::KeypadBitwiseXor
    } else if b == 0xC3 {
        KeyboardUsage::KeypadLogicalXor
    } else if b == 0xC4 {
        KeyboardUsage::KeypadModulo
    } else if b == 0xC5 {
        KeyboardUsage::KeypadLeftShift
    } else if b == 0xC6 {
        KeyboardUsage::KeypadRightShift
    } else if b == 0xC7 {
        KeyboardUsage::KeypadBitwiseAnd
    } else if b == 0xC8 {
        KeyboardUsage::KeypadLogicalAnd
    } else if b == 0xC9 {
        KeyboardUsage::KeypadBitwiseOr
    } else if b == 0xCA {
        KeyboardUsage::KeypadLogicalOr
    } else if b == 0xCB {
        KeyboardUsage::KeypadColon
    } else if b == 0xCC {
        KeyboardUsage::KeypadHash
    } else if b == 0xCD {
        KeyboardUsage::KeypadSpace
    } else if b == 0xCE {
        KeyboardUsage::KeypadAt
    } else if b == 0xCF {
        KeyboardUsage::KeypadExclamation
    } else if b == 0xD0 {
        KeyboardUsage::KeypadMemoryStore
    } else if b == 0xD1 {
        KeyboardUsage::KeypadMemoryRecall
    } else if b == 0xD2 {
        KeyboardUsage::KeypadMemoryClear
    } else if b == 0xD3 {
        KeyboardUsage::KeypadMemoryAdd
    } else if b == 0xD4 {
        KeyboardUsage::KeypadMemorySubtract
    } else if b == 0xD5 {
        KeyboardUsage::KeypadMemoryMultiply
    } else if b == 0xD6 {
        KeyboardUsage::KeypadMemoryDivide
    } else if b == 0xD7 {
        KeyboardUsage::KeypadPositiveNegative
    } else if b == 0xD8 {
        KeyboardUsage::KeypadClear
    } else if b == 0xD9 {
        KeyboardUsage::KeypadClearEntry
    } else if b == 0xDA {
        KeyboardUsage::KeypadBinary
    } else if b == 0xDB {
        KeyboardUsage::KeypadOctal
    } else if b == 0xDC {
        KeyboardUsage::KeypadDecimal
    } else if b == 0xDD {
        KeyboardUsage::KeypadHexadecimal
    } else if b == 0xE0 {
        KeyboardUsage::KeyboardLeftControl
    } else if b == 0xE1 {
        KeyboardUsage::KeyboardLeftShift
    } else if b == 0xE2 {
        KeyboardUsage::KeyboardLeftAlt
    } else if b == 0xE3 {
        KeyboardUsage::KeyboardLeftGUI
    } else if b == 0xE4 {
        KeyboardUsage::KeyboardRightControl
    } else if b == 0xE5 {
        KeyboardUsage::KeyboardRightShift
    } else if b == 0xE6 {
        KeyboardUsage::KeyboardRightAlt
    } else if b == 0xE7 {
        KeyboardUsage::KeyboardRightGUI
    } else if b == 0xE8 {
        KeyboardUsage::Reserved
    } else if b == 0xE9 {
        KeyboardUsage::KeyboardRaise
    } else if b == 0xEA {
        KeyboardUsage::KeyboardLower
    } else if b == 0xFF {
        KeyboardUsage::KeyboardEmpty
    } else {
        KeyboardUsage::Reserved
    }
}

/// The display label of a symbolic code, for the variants that have one.
pub open spec fn label_opt(c: KeyboardUsage) -> Option<Seq<char>> {
    match c {
        KeyboardUsage::KeyboardAa => Some("A"@),
        KeyboardUsage::KeyboardBb => Some("B"@),
        KeyboardUsage::KeyboardCc => Some("C"@),
        KeyboardUsage::KeyboardDd => Some("D"@),
        KeyboardUsage::KeyboardEe => Some("E"@),
        KeyboardUsage::KeyboardFf => Some("F"@),
        KeyboardUsage::KeyboardGg => Some("G"@),
        KeyboardUsage::KeyboardHh => Some("H"@),
        KeyboardUsage::KeyboardIi => Some("I"@),
        KeyboardUsage::KeyboardJj => Some("J"@),
        KeyboardUsage::KeyboardKk => Some("K"@),
        KeyboardUsage::KeyboardLl => Some("L"@),
        KeyboardUsage::KeyboardMm => Some("M"@),
        KeyboardUsage::KeyboardNn => Some("N"@),
        KeyboardUsage::KeyboardOo => Some("O"@),
        KeyboardUsage::KeyboardPp => Some("P"@),
        KeyboardUsage::KeyboardQq => Some("Q"@),
        KeyboardUsage::KeyboardRr => Some("R"@),
        KeyboardUsage::KeyboardSs => Some("S"@),
        KeyboardUsage::KeyboardTt => Some("T"@),
        KeyboardUsage::KeyboardUu => Some("U"@),
        KeyboardUsage::KeyboardVv => Some("V"@),
        KeyboardUsage::KeyboardWw => Some("W"@),
        KeyboardUsage::KeyboardXx => Some("X"@),
        KeyboardUsage::KeyboardYy => Some("Y"@),
        KeyboardUsage::KeyboardZz => Some("Z"@),
        KeyboardUsage::Keyboard1Exclamation => Some("1"@),
        KeyboardUsage::Keyboard2At => Some("2"@),
        KeyboardUsage::Keyboard3Hash => Some("3"@),
        KeyboardUsage::Keyboard4Dollar => Some("4"@),
        KeyboardUsage::Keyboard5Percent => Some("5"@),
        KeyboardUsage::Keyboard6Caret => Some("6"@),
        KeyboardUsage::Keyboard7Ampersand => Some("7"@),
        KeyboardUsage::Keyboard8Asterisk => Some("8"@),
        KeyboardUsage::Keyboard9OpenParens => Some("9"@),
        KeyboardUsage::Keyboard0CloseParens => Some("0"@),
        KeyboardUsage::KeyboardEnter => Some("Enter"@),
        KeyboardUsage::KeyboardEscape => Some("Esc"@),
        KeyboardUsage::KeyboardBackspace => Some("BKSP"@),
        KeyboardUsage::KeyboardTab => Some("Tab"@),
        KeyboardUsage::KeyboardSpacebar => Some("Space"@),
        KeyboardUsage::KeyboardCapsLock => Some("Caps"@),
        KeyboardUsage::KeyboardDashUnderscore => Some("-"@),
        KeyboardUsage::KeyboardEqualPlus => Some("="@),
        KeyboardUsage::KeyboardOpenBracketBrace => Some("["@),
        KeyboardUsage::KeyboardCloseBracketBrace => Some("]"@),
        KeyboardUsage::KeyboardBackslashBar => Some("\\"@),
        KeyboardUsage::KeyboardSemiColon => Some(";"@),
        KeyboardUsage::KeyboardSingleDoubleQuote => Some("'"@),
        KeyboardUsage::KeyboardBacktickTilde => Some("`"@),
        KeyboardUsage::KeyboardCommaLess => Some(","@),
        KeyboardUsage::KeyboardPeriodGreater => Some("."@),
        KeyboardUsage::KeyboardSlashQuestion => Some("/"@),
        KeyboardUsage::KeyboardF1 => Some("F1"@),
        KeyboardUsage::KeyboardF2 => Some("F2"@),
        KeyboardUsage::KeyboardF3 => Some("F3"@),
        KeyboardUsage::KeyboardF4 => Some("F4"@),
        KeyboardUsage::KeyboardF5 => Some("F5"@),
        KeyboardUsage::KeyboardF6 => Some("F6"@),
        KeyboardUsage::KeyboardF7 => Some("F7"@),
        KeyboardUsage::KeyboardF8 => Some("F8"@),
        KeyboardUsage::KeyboardF9 => Some("F9"@),
        KeyboardUsage::KeyboardF10 => Some("F10"@),
        KeyboardUsage::KeyboardF11 => Some("F11"@),
        KeyboardUsage::KeyboardF12 => Some("F12"@),
        KeyboardUsage::KeyboardPrintScreen => Some("PrtSc"@),
        KeyboardUsage::KeyboardScrollLock => Some("ScrLk"@),
        KeyboardUsage::KeyboardPause => Some("Pause"@),
        KeyboardUsage::KeyboardInsert => Some("Ins"@),
        KeyboardUsage::KeyboardHome => Some("Home"@),
        KeyboardUsage::KeyboardPageUp => Some("PgUp"@),
        KeyboardUsage::KeyboardDelete => Some("Del"@),
        KeyboardUsage::KeyboardEnd => Some("End"@),
        KeyboardUsage::KeyboardPageDown => Some("PgDn"@),
        KeyboardUsage::KeyboardRightArrow => Some("→"@),
        KeyboardUsage::KeyboardLeftArrow => Some("←"@),
        KeyboardUsage::KeyboardDownArrow => Some("↓"@),
        KeyboardUsage::KeyboardUpArrow => Some("↑"@),
        KeyboardUsage::KeyboardLeftControl => Some("L Ctrl"@),
        KeyboardUsage::KeyboardLeftShift => Some("L Shift"@),
        KeyboardUsage::KeyboardLeftAlt => Some("L Alt"@),
        KeyboardUsage::KeyboardLeftGUI => Some("L GUI"@),
        KeyboardUsage::KeyboardRightControl => Some("R Ctrl"@),
        KeyboardUsage::KeyboardRightShift => Some("R Shift"@),
        KeyboardUsage::KeyboardRightAlt => Some("R Alt"@),
        KeyboardUsage::KeyboardRightGUI => Some("R GUI"@),
        KeyboardUsage::KeypadNumLock => Some("NumLk"@),
        KeyboardUsage::KeypadDivide => Some("Num /"@),
        KeyboardUsage::KeypadMultiply => Some("Num *"@),
        KeyboardUsage::KeypadMinus => Some("Num -"@),
        KeyboardUsage::KeypadPlus => Some("Num +"@),
        KeyboardUsage::KeypadEnter => Some("Num Ent"@),
        KeyboardUsage::Keypad1End => Some("Num 1"@),
        KeyboardUsage::Keypad2DownArrow => Some("Num 2"@),
        KeyboardUsage::Keypad3PageDown => Some("Num 3"@),
        KeyboardUsage::Keypad4LeftArrow => Some("Num 4"@),
        KeyboardUsage::Keypad5 => Some("Num 5"@),
        KeyboardUsage::Keypad6RightArrow => Some("Num 6"@),
        KeyboardUsage::Keypad7Home => Some("Num 7"@),
        KeyboardUsage::Keypad8UpArrow => Some("Num 8"@),
        KeyboardUsage::Keypad9PageUp => Some("Num 9"@),
        KeyboardUsage::Keypad0Insert => Some("Num 0"@),
        KeyboardUsage::KeypadPeriodDelete => Some("Num ."@),
        KeyboardUsage::KeypadEqual => Some("Num ="@),
        KeyboardUsage::KeyboardVolumeUp => Some("Vol+"@),
        KeyboardUsage::KeyboardVolumeDown => Some("Vol-"@),
        KeyboardUsage::KeyboardMute => Some("Mute"@),
        KeyboardUsage::KeyboardRaise => Some("Raise"@),
        KeyboardUsage::KeyboardLower => Some("Lower"@),
        KeyboardUsage::KeyboardEmpty => Some(""@),
        KeyboardUsage::KeyboardApplication => Some("App"@),
        KeyboardUsage::KeyboardPower => Some("Power"@),
        _ => None,
    }
}

/// The string a symbolic code displays as: its label where it has one, and
/// the fixed fallback `"Unknown"` everywhere else (the sentinel included).
pub open spec fn label_view(c: KeyboardUsage) -> Seq<char> {
    match label_opt(c) {
        Some(l) => l,
        None => "Unknown"@,
    }
}

/// The symbolic code a label resolves to: the exact, case-sensitive reverse
/// of the label table, with the sentinel for every string that matches no
/// label.
pub open spec fn parse_label_view(s: Seq<char>) -> KeyboardUsage {
    if s == "A"@ {
        KeyboardUsage::KeyboardAa
    } else if s == "B"@ {
        KeyboardUsage::KeyboardBb
    } else if s == "C"@ {
        KeyboardUsage::KeyboardCc
    } else if s == "D"@ {
        KeyboardUsage::KeyboardDd
    } else if s == "E"@ {
        KeyboardUsage::KeyboardEe
    } else if s == "F"@ {
        KeyboardUsage::KeyboardFf
    } else if s == "G"@ {
        KeyboardUsage::KeyboardGg
    } else if s == "H"@ {
        KeyboardUsage::KeyboardHh
    } else if s == "I"@ {
        KeyboardUsage::KeyboardIi
    } else if s == "J"@ {
        KeyboardUsage::KeyboardJj
    } else if s == "K"@ {
        KeyboardUsage::KeyboardKk
    } else if s == "L"@ {
        KeyboardUsage::KeyboardLl
    } else if s == "M"@ {
        KeyboardUsage::KeyboardMm
    } else if s == "N"@ {
        KeyboardUsage::KeyboardNn
    } else if s == "O"@ {
        KeyboardUsage::KeyboardOo
    } else if s == "P"@ {
        KeyboardUsage::KeyboardPp
    } else if s == "Q"@ {
        KeyboardUsage::KeyboardQq
    } else if s == "R"@ {
        KeyboardUsage::KeyboardRr
    } else if s == "S"@ {
        KeyboardUsage::KeyboardSs
    } else if s == "T"@ {
        KeyboardUsage::KeyboardTt
    } else if s == "U"@ {
        KeyboardUsage::KeyboardUu
    } else if s == "V"@ {
        KeyboardUsage::KeyboardVv
    } else if s == "W"@ {
        KeyboardUsage::KeyboardWw
    } else if s == "X"@ {
        KeyboardUsage::KeyboardXx
    } else if s == "Y"@ {
        KeyboardUsage::KeyboardYy
    } else if s == "Z"@ {
        KeyboardUsage::KeyboardZz
    } else if s == "1"@ {
        KeyboardUsage::Keyboard1Exclamation
    } else if s == "2"@ {
        KeyboardUsage::Keyboard2At
    } else if s == "3"@ {
        KeyboardUsage::Keyboard3Hash
    } else if s == "4"@ {
        KeyboardUsage::Keyboard4Dollar
    } else if s == "5"@ {
        KeyboardUsage::Keyboard5Percent
    } else if s == "6"@ {
        KeyboardUsage::Keyboard6Caret
    } else if s == "7"@ {
        KeyboardUsage::Keyboard7Ampersand
    } else if s == "8"@ {
        KeyboardUsage::Keyboard8Asterisk
    } else if s == "9"@ {
        KeyboardUsage::Keyboard9OpenParens
    } else if s == "0"@ {
        KeyboardUsage::Keyboard0CloseParens
    } else if s == "Enter"@ {
        KeyboardUsage::KeyboardEnter
    } else if s == "Esc"@ {
        KeyboardUsage::KeyboardEscape
    } else if s == "BKSP"@ {
        KeyboardUsage::KeyboardBackspace
    } else if s == "Tab"@ {
        KeyboardUsage::KeyboardTab
    } else if s == "Space"@ {
        KeyboardUsage::KeyboardSpacebar
    } else if s == "Caps"@ {
        KeyboardUsage::KeyboardCapsLock
    } else if s == "-"@ {
        KeyboardUsage::KeyboardDashUnderscore
    } else if s == "="@ {
        KeyboardUsage::KeyboardEqualPlus
    } else if s == "["@ {
        KeyboardUsage::KeyboardOpenBracketBrace
    } else if s == "]"@ {
        KeyboardUsage::KeyboardCloseBracketBrace
    } else if s == "\\"@ {
        KeyboardUsage::KeyboardBackslashBar
    } else if s == ";"@ {
        KeyboardUsage::KeyboardSemiColon
    } else if s == "'"@ {
        KeyboardUsage::KeyboardSingleDoubleQuote
    } else if s == "`"@ {
        KeyboardUsage::KeyboardBacktickTilde
    } else if s == ","@ {
        KeyboardUsage::KeyboardCommaLess
    } else if s == "."@ {
        KeyboardUsage::KeyboardPeriodGreater
    } else if s == "/"@ {
        KeyboardUsage::KeyboardSlashQuestion
    } else if s == "F1"@ {
        KeyboardUsage::KeyboardF1
    } else if s == "F2"@ {
        KeyboardUsage::KeyboardF2
    } else if s == "F3"@ {
        KeyboardUsage::KeyboardF3
    } else if s == "F4"@ {
        KeyboardUsage::KeyboardF4
    } else if s == "F5"@ {
        KeyboardUsage::KeyboardF5
    } else if s == "F6"@ {
        KeyboardUsage::KeyboardF6
    } else if s == "F7"@ {
        KeyboardUsage::KeyboardF7
    } else if s == "F8"@ {
        KeyboardUsage::KeyboardF8
    } else if s == "F9"@ {
        KeyboardUsage::KeyboardF9
    } else if s == "F10"@ {
        KeyboardUsage::KeyboardF10
    } else if s == "F11"@ {
        KeyboardUsage::KeyboardF11
    } else if s == "F12"@ {
        KeyboardUsage::KeyboardF12
    } else if s == "PrtSc"@ {
        KeyboardUsage::KeyboardPrintScreen
    } else if s == "ScrLk"@ {
        KeyboardUsage::KeyboardScrollLock
    } else if s == "Pause"@ {
        KeyboardUsage::KeyboardPause
    } else if s == "Ins"@ {
        KeyboardUsage::KeyboardInsert
    } else if s == "Home"@ {
        KeyboardUsage::KeyboardHome
    } else if s == "PgUp"@ {
        KeyboardUsage::KeyboardPageUp
    } else if s == "Del"@ {
        KeyboardUsage::KeyboardDelete
    } else if s == "End"@ {
        KeyboardUsage::KeyboardEnd
    } else if s == "PgDn"@ {
        KeyboardUsage::KeyboardPageDown
    } else if s == "→"@ {
        KeyboardUsage::KeyboardRightArrow
    } else if s == "←"@ {
        KeyboardUsage::KeyboardLeftArrow
    } else if s == "↓"@ {
        KeyboardUsage::KeyboardDownArrow
    } else if s == "↑"@ {
        KeyboardUsage::KeyboardUpArrow
    } else if s == "L Ctrl"@ {
        KeyboardUsage::KeyboardLeftControl
    } else if s == "L Shift"@ {
        KeyboardUsage::KeyboardLeftShift
    } else if s == "L Alt"@ {
        KeyboardUsage::KeyboardLeftAlt
    } else if s == "L GUI"@ {
        KeyboardUsage::KeyboardLeftGUI
    } else if s == "R Ctrl"@ {
        KeyboardUsage::KeyboardRightControl
    } else if s == "R Shift"@ {
        KeyboardUsage::KeyboardRightShift
    } else if s == "R Alt"@ {
        KeyboardUsage::KeyboardRightAlt
    } else if s == "R GUI"@ {
        KeyboardUsage::KeyboardRightGUI
    } else if s == "NumLk"@ {
        KeyboardUsage::KeypadNumLock
    } else if s == "Num /"@ {
        KeyboardUsage::KeypadDivide
    } else if s == "Num *"@ {
        KeyboardUsage::KeypadMultiply
    } else if s == "Num -"@ {
        KeyboardUsage::KeypadMinus
    } else if s == "Num +"@ {
        KeyboardUsage::KeypadPlus
    } else if s == "Num Ent"@ {
        KeyboardUsage::KeypadEnter
    } else if s == "Num 1"@ {
        KeyboardUsage::Keypad1End
    } else if s == "Num 2"@ {
        KeyboardUsage::Keypad2DownArrow
    } else if s == "Num 3"@ {
        KeyboardUsage::Keypad3PageDown
    } else if s == "Num 4"@ {
        KeyboardUsage::Keypad4LeftArrow
    } else if s == "Num 5"@ {
        KeyboardUsage::Keypad5
    } else if s == "Num 6"@ {
        KeyboardUsage::Keypad6RightArrow
    } else if s == "Num 7"@ {
        KeyboardUsage::Keypad7Home
    } else if s == "Num 8"@ {
        KeyboardUsage::Keypad8UpArrow
    } else if s == "Num 9"@ {
        KeyboardUsage::Keypad9PageUp
    } else if s == "Num 0"@ {
        KeyboardUsage::Keypad0Insert
    } else if s == "Num ."@ {
        KeyboardUsage::KeypadPeriodDelete
    } else if s == "Num ="@ {
        KeyboardUsage::KeypadEqual
    } else if s == "Vol+"@ {
        KeyboardUsage::KeyboardVolumeUp
    } else if s == "Vol-"@ {
        KeyboardUsage::KeyboardVolumeDown
    } else if s == "Mute"@ {
        KeyboardUsage::KeyboardMute
    } else if s == "Raise"@ {
        KeyboardUsage::KeyboardRaise
    } else if s == "Lower"@ {
        KeyboardUsage::KeyboardLower
    } else if s == ""@ {
        KeyboardUsage::KeyboardEmpty
    } else if s == "App"@ {
        KeyboardUsage::KeyboardApplication
    } else if s == "Power"@ {
        KeyboardUsage::KeyboardPower
    } else {
        KeyboardUsage::Reserved
    }
}

/// Character-by-character string equality, so that label lookups can be
/// related to the sequences the specifications speak of.
fn str_eq(a: &str, b: &str) -> (r: bool)
    ensures
        r == (a@ == b@),
{
    let n = a.unicode_len();
    let m = b.unicode_len();
    if n != m {
        return false;
    }
    let mut i: usize = 0;
    while i < n
        invariant
            n == a@.len(),
            n == b@.len(),
            i <= n,
            forall|j: int| 0 <= j < i ==> a@[j] == b@[j],
        decreases n - i,
    {
        if a.get_char(i) != b.get_char(i) {
            return false;
        }
        i += 1;
    }
    proof {
        assert(a@ =~= b@);
    }
    true
}

impl KeyboardUsage {
    /// Decode a byte into its symbolic code; bytes without an assigned
    /// variant yield the sentinel.
    pub fn decode_byte(b: u8) -> (r: KeyboardUsage)
        ensures
            r == usage_of_byte(b),
    {
        if b == 0x01 {
            KeyboardUsage::KeyboardErrorRollOver
        } else if b == 0x02 {
            KeyboardUsage::KeyboardPOSTFail
        } else if b == 0x03 {
            KeyboardUsage::KeyboardErrorUndefined
        } else if b == 0x04 {
            KeyboardUsage::KeyboardAa
        } else if b == 0x05 {
            KeyboardUsage::KeyboardBb
        } else if b == 0x06 {
            KeyboardUsage::KeyboardCc
        } else if b == 0x07 {
            KeyboardUsage::KeyboardDd
        } else if b == 0x08 {
            KeyboardUsage::KeyboardEe
        } else if b == 0x09 {
            KeyboardUsage::KeyboardFf
        } else if b == 0x0A {
            KeyboardUsage::KeyboardGg
        } else if b == 0x0B {
            KeyboardUsage::KeyboardHh
        } else if b == 0x0C {
            KeyboardUsage::KeyboardIi
        } else if b == 0x0D {
            KeyboardUsage::KeyboardJj
        } else if b == 0x0E {
            KeyboardUsage::KeyboardKk
        } else if b == 0x0F {
            KeyboardUsage::KeyboardLl
        } else if b == 0x10 {
            KeyboardUsage::KeyboardMm
        } else if b == 0x11 {
            KeyboardUsage::KeyboardNn
        } else if b == 0x12 {
            KeyboardUsage::KeyboardOo
        } else if b == 0x13 {
            KeyboardUsage::KeyboardPp
        } else if b == 0x14 {
            KeyboardUsage::KeyboardQq
        } else if b == 0x15 {
            KeyboardUsage::KeyboardRr
        } else if b == 0x16 {
            KeyboardUsage::KeyboardSs
        } else if b == 0x17 {
            KeyboardUsage::KeyboardTt
        } else if b == 0x18 {
            KeyboardUsage::KeyboardUu
        } else if b == 0x19 {
            KeyboardUsage::KeyboardVv
        } else if b == 0x1A {
            KeyboardUsage::KeyboardWw
        } else if b == 0x1B {
            KeyboardUsage::KeyboardXx
        } else if b == 0x1C {
            KeyboardUsage::KeyboardYy
        } else if b == 0x1D {
            KeyboardUsage::KeyboardZz
        } else if b == 0x1E {
            KeyboardUsage::Keyboard1Exclamation
        } else if b == 0x1F {
            KeyboardUsage::Keyboard2At
        } else if b == 0x20 {
            KeyboardUsage::Keyboard3Hash
        } else if b == 0x21 {
            KeyboardUsage::Keyboard4Dollar
        } else if b == 0x22 {
            KeyboardUsage::Keyboard5Percent
        } else if b == 0x23 {
            KeyboardUsage::Keyboard6Caret
        } else if b == 0x24 {
            KeyboardUsage::Keyboard7Ampersand
        } else if b == 0x25 {
            KeyboardUsage::Keyboard8Asterisk
        } else if b == 0x26 {
            KeyboardUsage::Keyboard9OpenParens
        } else if b == 0x27 {
            KeyboardUsage::Keyboard0CloseParens
        } else if b == 0x28 {
            KeyboardUsage::KeyboardEnter
        } else if b == 0x29 {
            KeyboardUsage::KeyboardEscape
        } else if b == 0x2A {
            KeyboardUsage::KeyboardBackspace
        } else if b == 0x2B {
            KeyboardUsage::KeyboardTab
        } else if b == 0x2C {
            KeyboardUsage::KeyboardSpacebar
        } else if b == 0x2D {
            KeyboardUsage::KeyboardDashUnderscore
        } else if b == 0x2E {
            KeyboardUsage::KeyboardEqualPlus
        } else if b == 0x2F {
            KeyboardUsage::KeyboardOpenBracketBrace
        } else if b == 0x30 {
            KeyboardUsage::KeyboardCloseBracketBrace
        } else if b == 0x31 {
            KeyboardUsage::KeyboardBackslashBar
        } else if b == 0x32 {
            KeyboardUsage::KeyboardNonUSHash
        } else if b == 0x33 {
            KeyboardUsage::KeyboardSemiColon
        } else if b == 0x34 {
            KeyboardUsage::KeyboardSingleDoubleQuote
        } else if b == 0x35 {
            KeyboardUsage::KeyboardBacktickTilde
        } else if b == 0x36 {
            KeyboardUsage::KeyboardCommaLess
        } else if b == 0x37 {
            KeyboardUsage::KeyboardPeriodGreater
        } else if b == 0x38 {
            KeyboardUsage::KeyboardSlashQuestion
        } else if b == 0x39 {
            KeyboardUsage::KeyboardCapsLock
        } else if b == 0x3A {
            KeyboardUsage::KeyboardF1
        } else if b == 0x3B {
            KeyboardUsage::KeyboardF2
        } else if b == 0x3C {
            KeyboardUsage::KeyboardF3
        } else if b == 0x3D {
            KeyboardUsage::KeyboardF4
        } else if b == 0x3E {
            KeyboardUsage::KeyboardF5
        } else if b == 0x3F {
            KeyboardUsage::KeyboardF6
        } else if b == 0x40 {
            KeyboardUsage::KeyboardF7
        } else if b == 0x41 {
            KeyboardUsage::KeyboardF8
        } else if b == 0x42 {
            KeyboardUsage::KeyboardF9
        } else if b == 0x43 {
            KeyboardUsage::KeyboardF10
        } else if b == 0x44 {
            KeyboardUsage::KeyboardF11
        } else if b == 0x45 {
            KeyboardUsage::KeyboardF12
        } else if b == 0x46 {
            KeyboardUsage::KeyboardPrintScreen
        } else if b == 0x47 {
            KeyboardUsage::KeyboardScrollLock
        } else if b == 0x48 {
            KeyboardUsage::KeyboardPause
        } else if b == 0x49 {
            KeyboardUsage::KeyboardInsert
        } else if b == 0x4A {
            KeyboardUsage::KeyboardHome
        } else if b == 0x4B {
            KeyboardUsage::KeyboardPageUp
        } else if b == 0x4C {
            KeyboardUsage::KeyboardDelete
        } else if b == 0x4D {
            KeyboardUsage::KeyboardEnd
        } else if b == 0x4E {
            KeyboardUsage::KeyboardPageDown
        } else if b == 0x4F {
            KeyboardUsage::KeyboardRightArrow
        } else if b == 0x50 {
            KeyboardUsage::KeyboardLeftArrow
        } else if b == 0x51 {
            KeyboardUsage::KeyboardDownArrow
        } else if b == 0x52 {
            KeyboardUsage::KeyboardUpArrow
        } else if b == 0x53 {
            KeyboardUsage::KeypadNumLock
        } else if b == 0x54 {
            KeyboardUsage::KeypadDivide
        } else if b == 0x55 {
            KeyboardUsage::KeypadMultiply
        } else if b == 0x56 {
            KeyboardUsage::KeypadMinus
        } else if b == 0x57 {
            KeyboardUsage::KeypadPlus
        } else if b == 0x58 {
            KeyboardUsage::KeypadEnter
        } else if b == 0x59 {
            KeyboardUsage::Keypad1End
        } else if b == 0x5A {
            KeyboardUsage::Keypad2DownArrow
        } else if b == 0x5B {
            KeyboardUsage::Keypad3PageDown
        } else if b == 0x5C {
            KeyboardUsage::Keypad4LeftArrow
        } else if b == 0x5D {
            KeyboardUsage::Keypad5
        } else if b == 0x5E {
            KeyboardUsage::Keypad6RightArrow
        } else if b == 0x5F {
            KeyboardUsage::Keypad7Home
        } else if b == 0x60 {
            KeyboardUsage::Keypad8UpArrow
        } else if b == 0x61 {
            KeyboardUsage::Keypad9PageUp
        } else if b == 0x62 {
            KeyboardUsage::Keypad0Insert
        } else if b == 0x63 {
            KeyboardUsage::KeypadPeriodDelete
        } else if b == 0x64 {
            KeyboardUsage::KeyboardNonUSSlash
        } else if b == 0x65 {
            KeyboardUsage::KeyboardApplication
        } else if b == 0x66 {
            KeyboardUsage::KeyboardPower
        } else if b == 0x67 {
            KeyboardUsage::KeypadEqual
        } else if b == 0x68 {
            KeyboardUsage::KeyboardF13
        } else if b == 0x69 {
            KeyboardUsage::KeyboardF14
        } else if b == 0x6A {
            KeyboardUsage::KeyboardF15
        } else if b == 0x6B {
            KeyboardUsage::KeyboardF16
        } else if b == 0x6C {
            KeyboardUsage::KeyboardF17
        } else if b == 0x6D {
            KeyboardUsage::KeyboardF18
        } else if b == 0x6E {
            KeyboardUsage::KeyboardF19
        } else if b == 0x6F {
            KeyboardUsage::KeyboardF20
        } else if b == 0x70 {
            KeyboardUsage::KeyboardF21
        } else if b == 0x71 {
            KeyboardUsage::KeyboardF22
        } else if b == 0x72 {
            KeyboardUsage::KeyboardF23
        } else if b == 0x73 {
            KeyboardUsage::KeyboardF24
        } else if b == 0x74 {
            KeyboardUsage::KeyboardExecute
        } else if b == 0x75 {
            KeyboardUsage::KeyboardHelp
        } else if b == 0x76 {
            KeyboardUsage::KeyboardMenu
        } else if b == 0x77 {
            KeyboardUsage::KeyboardSelect
        } else if b == 0x78 {
            KeyboardUsage::KeyboardStop
        } else if b == 0x79 {
            KeyboardUsage::KeyboardAgain
        } else if b == 0x7A {
            KeyboardUsage::KeyboardUndo
        } else if b == 0x7B {
            KeyboardUsage::KeyboardCut
        } else if b == 0x7C {
            KeyboardUsage::KeyboardCopy
        } else if b == 0x7D {
            KeyboardUsage::KeyboardPaste
        } else if b == 0x7E {
            KeyboardUsage::KeyboardFind
        } else if b == 0x7F {
            KeyboardUsage::KeyboardMute
        } else if b == 0x80 {
            KeyboardUsage::KeyboardVolumeUp
        } else if b == 0x81 {
            KeyboardUsage::KeyboardVolumeDown
        } else if b == 0x82 {
            KeyboardUsage::KeyboardLockingCapsLock
        } else if b == 0x83 {
            KeyboardUsage::KeyboardLockingNumLock
        } else if b == 0x84 {
            KeyboardUsage::KeyboardLockingScrollLock
        } else if b == 0x85 {
            KeyboardUsage::KeypadComma
        } else if b == 0x86 {
            KeyboardUsage::KeypadEqualSign
        } else if b == 0x87 {
            KeyboardUsage::KeyboardInternational1
        } else if b == 0x88 {
            KeyboardUsage::KeyboardInternational2
        } else if b == 0x89 {
            KeyboardUsage::KeyboardInternational3
        } else if b == 0x8A {
            KeyboardUsage::KeyboardInternational4
        } else if b == 0x8B {
            KeyboardUsage::KeyboardInternational5
        } else if b == 0x8C {
            KeyboardUsage::KeyboardInternational6
        } else if b == 0x8D {
            KeyboardUsage::KeyboardInternational7
        } else if b == 0x8E {
            KeyboardUsage::KeyboardInternational8
        } else if b == 0x8F {
            KeyboardUsage::KeyboardInternational9
        } else if b == 0x90 {
            KeyboardUsage::KeyboardLANG1
        } else if b == 0x91 {
            KeyboardUsage::KeyboardLANG2
        } else if b == 0x92 {
            KeyboardUsage::KeyboardLANG3
        } else if b == 0x93 {
            KeyboardUsage::KeyboardLANG4
        } else if b == 0x94 {
            KeyboardUsage::KeyboardLANG5
        } else if b == 0x95 {
            KeyboardUsage::KeyboardLANG6
        } else if b == 0x96 {
            KeyboardUsage::KeyboardLANG7
        } else if b == 0x97 {
            KeyboardUsage::KeyboardLANG8
        } else if b == 0x98 {
            KeyboardUsage::KeyboardLANG9
        } else if b == 0x99 {
            KeyboardUsage::KeyboardAlternateErase
        } else if b == 0x9A {
            KeyboardUsage::KeyboardSysReqAttention
        } else if b == 0x9B {
            KeyboardUsage::KeyboardCancel
        } else if b == 0x9C {
            KeyboardUsage::KeyboardClear
        } else if b == 0x9D {
            KeyboardUsage::KeyboardPrior
        } else if b == 0x9E {
            KeyboardUsage::KeyboardReturn
        } else if b == 0x9F {
            KeyboardUsage::KeyboardSeparator
        } else if b == 0xA0 {
            KeyboardUsage::KeyboardOut
        } else if b == 0xA1 {
            KeyboardUsage::KeyboardOper
        } else if b == 0xA2 {
            KeyboardUsage::KeyboardClearAgain
        } else if b == 0xA3 {
            KeyboardUsage::KeyboardCrSelProps
        } else if b == 0xA4 {
            KeyboardUsage::KeyboardExSel
        } else if b == 0xB0 {
            KeyboardUsage::Keypad00
        } else if b == 0xB1 {
            KeyboardUsage::Keypad000
        } else if b == 0xB2 {
            KeyboardUsage::ThousandsSeparator
        } else if b == 0xB3 {
            KeyboardUsage::DecimalSeparator
        } else if b == 0xB4 {
            KeyboardUsage::CurrencyUnit
        } else if b == 0xB5 {
            KeyboardUsage::CurrencySubunit
        } else if b == 0xB6 {
            KeyboardUsage::KeypadOpenParens
        } else if b == 0xB7 {
            KeyboardUsage::KeypadCloseParens
        } else if b == 0xB8 {
            KeyboardUsage::KeypadOpenBrace
        } else if b == 0xB9 {
            KeyboardUsage::KeypadCloseBrace
        } else if b == 0xBA {
            KeyboardUsage::KeypadTab
        } else if b == 0xBB {
            KeyboardUsage::KeypadBackspace
        } else if b == 0xBC {
            KeyboardUsage::KeypadA
        } else if b == 0xBD {
            KeyboardUsage::KeypadB
        } else if b == 0xBE {
            KeyboardUsage::KeypadC
        } else if b == 0xBF {
            KeyboardUsage::KeypadD
        } else if b == 0xC0 {
            KeyboardUsage::KeypadE
        } else if b == 0xC1 {
            KeyboardUsage::KeypadF
        } else if b == 0xC2 {
            KeyboardUsage::KeypadBitwiseXor
        } else if b == 0xC3 {
            KeyboardUsage::KeypadLogicalXor
        } else if b == 0xC4 {
            KeyboardUsage::KeypadModulo
        } else if b == 0xC5 {
            KeyboardUsage::KeypadLeftShift
        } else if b == 0xC6 {
            KeyboardUsage::KeypadRightShift
        } else if b == 0xC7 {
            KeyboardUsage::KeypadBitwiseAnd
        } else if b == 0xC8 {
            KeyboardUsage::KeypadLogicalAnd
        } else if b == 0xC9 {
            KeyboardUsage::KeypadBitwiseOr
        } else if b == 0xCA {
            KeyboardUsage::KeypadLogicalOr
        } else if b == 0xCB {
            KeyboardUsage::KeypadColon
        } else if b == 0xCC {
            KeyboardUsage::KeypadHash
        } else if b == 0xCD {
            KeyboardUsage::KeypadSpace
        } else if b == 0xCE {
            KeyboardUsage::KeypadAt
        } else if b == 0xCF {
            KeyboardUsage::KeypadExclamation
        } else if b == 0xD0 {
            KeyboardUsage::KeypadMemoryStore
        } else if b == 0xD1 {
            KeyboardUsage::KeypadMemoryRecall
        } else if b == 0xD2 {
            KeyboardUsage::KeypadMemoryClear
        } else if b == 0xD3 {
            KeyboardUsage::KeypadMemoryAdd
        } else if b == 0xD4 {
            KeyboardUsage::KeypadMemorySubtract
        } else if b == 0xD5 {
            KeyboardUsage::KeypadMemoryMultiply
        } else if b == 0xD6 {
            KeyboardUsage::KeypadMemoryDivide
        } else if b == 0xD7 {
            KeyboardUsage::KeypadPositiveNegative
        } else if b == 0xD8 {
            KeyboardUsage::KeypadClear
        } else if b == 0xD9 {
            KeyboardUsage::KeypadClearEntry
        } else if b == 0xDA {
            KeyboardUsage::KeypadBinary
        } else if b == 0xDB {
            KeyboardUsage::KeypadOctal
        } else if b == 0xDC {
            KeyboardUsage::KeypadDecimal
        } else if b == 0xDD {
            KeyboardUsage::KeypadHexadecimal
        } else if b == 0xE0 {
            KeyboardUsage::KeyboardLeftControl
        } else if b == 0xE1 {
            KeyboardUsage::KeyboardLeftShift
        } else if b == 0xE2 {
            KeyboardUsage::KeyboardLeftAlt
        } else if b == 0xE3 {
            KeyboardUsage::KeyboardLeftGUI
        } else if b == 0xE4 {
            KeyboardUsage::KeyboardRightControl
        } else if b == 0xE5 {
            KeyboardUsage::KeyboardRightShift
        } else if b == 0xE6 {
            KeyboardUsage::KeyboardRightAlt
        } else if b == 0xE7 {
            KeyboardUsage::KeyboardRightGUI
        } else if b == 0xE8 {
            KeyboardUsage::Reserved
        } else if b == 0xE9 {
            KeyboardUsage::KeyboardRaise
        } else if b == 0xEA {
            KeyboardUsage::KeyboardLower
        } else if b == 0xFF {
            KeyboardUsage::KeyboardEmpty
        } else {
            KeyboardUsage::Reserved
        }
    }

    /// The fixed one-byte identifier of this code.
    pub fn encode_byte(self) -> (b: u8)
        ensures
            b == byte_of(self),
    {
        match self {
            KeyboardUsage::KeyboardErrorRollOver => 0x01,
            KeyboardUsage::KeyboardPOSTFail => 0x02,
            KeyboardUsage::KeyboardErrorUndefined => 0x03,
            KeyboardUsage::KeyboardAa => 0x04,
            KeyboardUsage::KeyboardBb => 0x05,
            KeyboardUsage::KeyboardCc => 0x06,
            KeyboardUsage::KeyboardDd => 0x07,
            KeyboardUsage::KeyboardEe => 0x08,
            KeyboardUsage::KeyboardFf => 0x09,
            KeyboardUsage::KeyboardGg => 0x0A,
            KeyboardUsage::KeyboardHh => 0x0B,
            KeyboardUsage::KeyboardIi => 0x0C,
            KeyboardUsage::KeyboardJj => 0x0D,
            KeyboardUsage::KeyboardKk => 0x0E,
            KeyboardUsage::KeyboardLl => 0x0F,
            KeyboardUsage::KeyboardMm => 0x10,
            KeyboardUsage::KeyboardNn => 0x11,
            KeyboardUsage::KeyboardOo => 0x12,
            KeyboardUsage::KeyboardPp => 0x13,
            KeyboardUsage::KeyboardQq => 0x14,
            KeyboardUsage::KeyboardRr => 0x15,
            KeyboardUsage::KeyboardSs => 0x16,
            KeyboardUsage::KeyboardTt => 0x17,
            KeyboardUsage::KeyboardUu => 0x18,
            KeyboardUsage::KeyboardVv => 0x19,
            KeyboardUsage::KeyboardWw => 0x1A,
            KeyboardUsage::KeyboardXx => 0x1B,
            KeyboardUsage::KeyboardYy => 0x1C,
            KeyboardUsage::KeyboardZz => 0x1D,
            KeyboardUsage::Keyboard1Exclamation => 0x1E,
            KeyboardUsage::Keyboard2At => 0x1F,
            KeyboardUsage::Keyboard3Hash => 0x20,
            KeyboardUsage::Keyboard4Dollar => 0x21,
            KeyboardUsage::Keyboard5Percent => 0x22,
            KeyboardUsage::Keyboard6Caret => 0x23,
            KeyboardUsage::Keyboard7Ampersand => 0x24,
            KeyboardUsage::Keyboard8Asterisk => 0x25,
            KeyboardUsage::Keyboard9OpenParens => 0x26,
            KeyboardUsage::Keyboard0CloseParens => 0x27,
            KeyboardUsage::KeyboardEnter => 0x28,
            KeyboardUsage::KeyboardEscape => 0x29,
            KeyboardUsage::KeyboardBackspace => 0x2A,
            KeyboardUsage::KeyboardTab => 0x2B,
            KeyboardUsage::KeyboardSpacebar => 0x2C,
            KeyboardUsage::KeyboardDashUnderscore => 0x2D,
            KeyboardUsage::KeyboardEqualPlus => 0x2E,
            KeyboardUsage::KeyboardOpenBracketBrace => 0x2F,
            KeyboardUsage::KeyboardCloseBracketBrace => 0x30,
            KeyboardUsage::KeyboardBackslashBar => 0x31,
            KeyboardUsage::KeyboardNonUSHash => 0x32,
            KeyboardUsage::KeyboardSemiColon => 0x33,
            KeyboardUsage::KeyboardSingleDoubleQuote => 0x34,
            KeyboardUsage::KeyboardBacktickTilde => 0x35,
            KeyboardUsage::KeyboardCommaLess => 0x36,
            KeyboardUsage::KeyboardPeriodGreater => 0x37,
            KeyboardUsage::KeyboardSlashQuestion => 0x38,
            KeyboardUsage::KeyboardCapsLock => 0x39,
            KeyboardUsage::KeyboardF1 => 0x3A,
            KeyboardUsage::KeyboardF2 => 0x3B,
            KeyboardUsage::KeyboardF3 => 0x3C,
            KeyboardUsage::KeyboardF4 => 0x3D,
            KeyboardUsage::KeyboardF5 => 0x3E,
            KeyboardUsage::KeyboardF6 => 0x3F,
            KeyboardUsage::KeyboardF7 => 0x40,
            KeyboardUsage::KeyboardF8 => 0x41,
            KeyboardUsage::KeyboardF9 => 0x42,
            KeyboardUsage::KeyboardF10 => 0x43,
            KeyboardUsage::KeyboardF11 => 0x44,
            KeyboardUsage::KeyboardF12 => 0x45,
            KeyboardUsage::KeyboardPrintScreen => 0x46,
            KeyboardUsage::KeyboardScrollLock => 0x47,
            KeyboardUsage::KeyboardPause => 0x48,
            KeyboardUsage::KeyboardInsert => 0x49,
            KeyboardUsage::KeyboardHome => 0x4A,
            KeyboardUsage::KeyboardPageUp => 0x4B,
            KeyboardUsage::KeyboardDelete => 0x4C,
            KeyboardUsage::KeyboardEnd => 0x4D,
            KeyboardUsage::KeyboardPageDown => 0x4E,
            KeyboardUsage::KeyboardRightArrow => 0x4F,
            KeyboardUsage::KeyboardLeftArrow => 0x50,
            KeyboardUsage::KeyboardDownArrow => 0x51,
            KeyboardUsage::KeyboardUpArrow => 0x52,
            KeyboardUsage::KeypadNumLock => 0x53,
            KeyboardUsage::KeypadDivide => 0x54,
            KeyboardUsage::KeypadMultiply => 0x55,
            KeyboardUsage::KeypadMinus => 0x56,
            KeyboardUsage::KeypadPlus => 0x57,
            KeyboardUsage::KeypadEnter => 0x58,
            KeyboardUsage::Keypad1End => 0x59,
            KeyboardUsage::Keypad2DownArrow => 0x5A,
            KeyboardUsage::Keypad3PageDown => 0x5B,
            KeyboardUsage::Keypad4LeftArrow => 0x5C,
            KeyboardUsage::Keypad5 => 0x5D,
            KeyboardUsage::Keypad6RightArrow => 0x5E,
            KeyboardUsage::Keypad7Home => 0x5F,
            KeyboardUsage::Keypad8UpArrow => 0x60,
            KeyboardUsage::Keypad9PageUp => 0x61,
            KeyboardUsage::Keypad0Insert => 0x62,
            KeyboardUsage::KeypadPeriodDelete => 0x63,
            KeyboardUsage::KeyboardNonUSSlash => 0x64,
            KeyboardUsage::KeyboardApplication => 0x65,
            KeyboardUsage::KeyboardPower => 0x66,
            KeyboardUsage::KeypadEqual => 0x67,
            KeyboardUsage::KeyboardF13 => 0x68,
            KeyboardUsage::KeyboardF14 => 0x69,
            KeyboardUsage::KeyboardF15 => 0x6A,
            KeyboardUsage::KeyboardF16 => 0x6B,
            KeyboardUsage::KeyboardF17 => 0x6C,
            KeyboardUsage::KeyboardF18 => 0x6D,
            KeyboardUsage::KeyboardF19 => 0x6E,
            KeyboardUsage::KeyboardF20 => 0x6F,
            KeyboardUsage::KeyboardF21 => 0x70,
            KeyboardUsage::KeyboardF22 => 0x71,
            KeyboardUsage::KeyboardF23 => 0x72,
            KeyboardUsage::KeyboardF24 => 0x73,
            KeyboardUsage::KeyboardExecute => 0x74,
            KeyboardUsage::KeyboardHelp => 0x75,
            KeyboardUsage::KeyboardMenu => 0x76,
            KeyboardUsage::KeyboardSelect => 0x77,
            KeyboardUsage::KeyboardStop => 0x78,
            KeyboardUsage::KeyboardAgain => 0x79,
            KeyboardUsage::KeyboardUndo => 0x7A,
            KeyboardUsage::KeyboardCut => 0x7B,
            KeyboardUsage::KeyboardCopy => 0x7C,
            KeyboardUsage::KeyboardPaste => 0x7D,
            KeyboardUsage::KeyboardFind => 0x7E,
            KeyboardUsage::KeyboardMute => 0x7F,
            KeyboardUsage::KeyboardVolumeUp => 0x80,
            KeyboardUsage::KeyboardVolumeDown => 0x81,
            KeyboardUsage::KeyboardLockingCapsLock => 0x82,
            KeyboardUsage::KeyboardLockingNumLock => 0x83,
            KeyboardUsage::KeyboardLockingScrollLock => 0x84,
            KeyboardUsage::KeypadComma => 0x85,
            KeyboardUsage::KeypadEqualSign => 0x86,
            KeyboardUsage::KeyboardInternational1 => 0x87,
            KeyboardUsage::KeyboardInternational2 => 0x88,
            KeyboardUsage::KeyboardInternational3 => 0x89,
            KeyboardUsage::KeyboardInternational4 => 0x8A,
            KeyboardUsage::KeyboardInternational5 => 0x8B,
            KeyboardUsage::KeyboardInternational6 => 0x8C,
            KeyboardUsage::KeyboardInternational7 => 0x8D,
            KeyboardUsage::KeyboardInternational8 => 0x8E,
            KeyboardUsage::KeyboardInternational9 => 0x8F,
            KeyboardUsage::KeyboardLANG1 => 0x90,
            KeyboardUsage::KeyboardLANG2 => 0x91,
            KeyboardUsage::KeyboardLANG3 => 0x92,
            KeyboardUsage::KeyboardLANG4 => 0x93,
            KeyboardUsage::KeyboardLANG5 => 0x94,
            KeyboardUsage::KeyboardLANG6 => 0x95,
            KeyboardUsage::KeyboardLANG7 => 0x96,
            KeyboardUsage::KeyboardLANG8 => 0x97,
            KeyboardUsage::KeyboardLANG9 => 0x98,
            KeyboardUsage::KeyboardAlternateErase => 0x99,
            KeyboardUsage::KeyboardSysReqAttention => 0x9A,
            KeyboardUsage::KeyboardCancel => 0x9B,
            KeyboardUsage::KeyboardClear => 0x9C,
            KeyboardUsage::KeyboardPrior => 0x9D,
            KeyboardUsage::KeyboardReturn => 0x9E,
            KeyboardUsage::KeyboardSeparator => 0x9F,
            KeyboardUsage::KeyboardOut => 0xA0,
            KeyboardUsage::KeyboardOper => 0xA1,
            KeyboardUsage::KeyboardClearAgain => 0xA2,
            KeyboardUsage::KeyboardCrSelProps => 0xA3,
            KeyboardUsage::KeyboardExSel => 0xA4,
            KeyboardUsage::Keypad00 => 0xB0,
            KeyboardUsage::Keypad000 => 0xB1,
            KeyboardUsage::ThousandsSeparator => 0xB2,
            KeyboardUsage::DecimalSeparator => 0xB3,
            KeyboardUsage::CurrencyUnit => 0xB4,
            KeyboardUsage::CurrencySubunit => 0xB5,
            KeyboardUsage::KeypadOpenParens => 0xB6,
            KeyboardUsage::KeypadCloseParens => 0xB7,
            KeyboardUsage::KeypadOpenBrace => 0xB8,
            KeyboardUsage::KeypadCloseBrace => 0xB9,
            KeyboardUsage::KeypadTab => 0xBA,
            KeyboardUsage::KeypadBackspace => 0xBB,
            KeyboardUsage::KeypadA => 0xBC,
            KeyboardUsage::KeypadB => 0xBD,
            KeyboardUsage::KeypadC => 0xBE,
            KeyboardUsage::KeypadD => 0xBF,
            KeyboardUsage::KeypadE => 0xC0,
            KeyboardUsage::KeypadF => 0xC1,
            KeyboardUsage::KeypadBitwiseXor => 0xC2,
            KeyboardUsage::KeypadLogicalXor => 0xC3,
            KeyboardUsage::KeypadModulo => 0xC4,
            KeyboardUsage::KeypadLeftShift => 0xC5,
            KeyboardUsage::KeypadRightShift => 0xC6,
            KeyboardUsage::KeypadBitwiseAnd => 0xC7,
            KeyboardUsage::KeypadLogicalAnd => 0xC8,
            KeyboardUsage::KeypadBitwiseOr => 0xC9,
            KeyboardUsage::KeypadLogicalOr => 0xCA,
            KeyboardUsage::KeypadColon => 0xCB,
            KeyboardUsage::KeypadHash => 0xCC,
            KeyboardUsage::KeypadSpace => 0xCD,
            KeyboardUsage::KeypadAt => 0xCE,
            KeyboardUsage::KeypadExclamation => 0xCF,
            KeyboardUsage::KeypadMemoryStore => 0xD0,
            KeyboardUsage::KeypadMemoryRecall => 0xD1,
            KeyboardUsage::KeypadMemoryClear => 0xD2,
            KeyboardUsage::KeypadMemoryAdd => 0xD3,
            KeyboardUsage::KeypadMemorySubtract => 0xD4,
            KeyboardUsage::KeypadMemoryMultiply => 0xD5,
            KeyboardUsage::KeypadMemoryDivide => 0xD6,
            KeyboardUsage::KeypadPositiveNegative => 0xD7,
            KeyboardUsage::KeypadClear => 0xD8,
            KeyboardUsage::KeypadClearEntry => 0xD9,
            KeyboardUsage::KeypadBinary => 0xDA,
            KeyboardUsage::KeypadOctal => 0xDB,
            KeyboardUsage::KeypadDecimal => 0xDC,
            KeyboardUsage::KeypadHexadecimal => 0xDD,
            KeyboardUsage::KeyboardLeftControl => 0xE0,
            KeyboardUsage::KeyboardLeftShift => 0xE1,
            KeyboardUsage::KeyboardLeftAlt => 0xE2,
            KeyboardUsage::KeyboardLeftGUI => 0xE3,
            KeyboardUsage::KeyboardRightControl => 0xE4,
            KeyboardUsage::KeyboardRightShift => 0xE5,
            KeyboardUsage::KeyboardRightAlt => 0xE6,
            KeyboardUsage::KeyboardRightGUI => 0xE7,
            KeyboardUsage::Reserved => 0xE8,
            KeyboardUsage::KeyboardRaise => 0xE9,
            KeyboardUsage::KeyboardLower => 0xEA,
            KeyboardUsage::KeyboardEmpty => 0xFF,
        }
    }

    /// The display label of this code, with `"Unknown"` as the fallback for
    /// every variant without a label.
    pub fn label(self) -> (r: &'static str)
        ensures
            r@ == label_view(self),
    {
        match self {
            KeyboardUsage::KeyboardAa => "A",
            KeyboardUsage::KeyboardBb => "B",
            KeyboardUsage::KeyboardCc => "C",
            KeyboardUsage::KeyboardDd => "D",
            KeyboardUsage::KeyboardEe => "E",
            KeyboardUsage::KeyboardFf => "F",
            KeyboardUsage::KeyboardGg => "G",
            KeyboardUsage::KeyboardHh => "H",
            KeyboardUsage::KeyboardIi => "I",
            KeyboardUsage::KeyboardJj => "J",
            KeyboardUsage::KeyboardKk => "K",
            KeyboardUsage::KeyboardLl => "L",
            KeyboardUsage::KeyboardMm => "M",
            KeyboardUsage::KeyboardNn => "N",
            KeyboardUsage::KeyboardOo => "O",
            KeyboardUsage::KeyboardPp => "P",
            KeyboardUsage::KeyboardQq => "Q",
            KeyboardUsage::KeyboardRr => "R",
            KeyboardUsage::KeyboardSs => "S",
            KeyboardUsage::KeyboardTt => "T",
            KeyboardUsage::KeyboardUu => "U",
            KeyboardUsage::KeyboardVv => "V",
            KeyboardUsage::KeyboardWw => "W",
            KeyboardUsage::KeyboardXx => "X",
            KeyboardUsage::KeyboardYy => "Y",
            KeyboardUsage::KeyboardZz => "Z",
            KeyboardUsage::Keyboard1Exclamation => "1",
            KeyboardUsage::Keyboard2At => "2",
            KeyboardUsage::Keyboard3Hash => "3",
            KeyboardUsage::Keyboard4Dollar => "4",
            KeyboardUsage::Keyboard5Percent => "5",
            KeyboardUsage::Keyboard6Caret => "6",
            KeyboardUsage::Keyboard7Ampersand => "7",
            KeyboardUsage::Keyboard8Asterisk => "8",
            KeyboardUsage::Keyboard9OpenParens => "9",
            KeyboardUsage::Keyboard0CloseParens => "0",
            KeyboardUsage::KeyboardEnter => "Enter",
            KeyboardUsage::KeyboardEscape => "Esc",
            KeyboardUsage::KeyboardBackspace => "BKSP",
            KeyboardUsage::KeyboardTab => "Tab",
            KeyboardUsage::KeyboardSpacebar => "Space",
            KeyboardUsage::KeyboardCapsLock => "Caps",
            KeyboardUsage::KeyboardDashUnderscore => "-",
            KeyboardUsage::KeyboardEqualPlus => "=",
            KeyboardUsage::KeyboardOpenBracketBrace => "[",
            KeyboardUsage::KeyboardCloseBracketBrace => "]",
            KeyboardUsage::KeyboardBackslashBar => "\\",
            KeyboardUsage::KeyboardSemiColon => ";",
            KeyboardUsage::KeyboardSingleDoubleQuote => "'",
            KeyboardUsage::KeyboardBacktickTilde => "`",
            KeyboardUsage::KeyboardCommaLess => ",",
            KeyboardUsage::KeyboardPeriodGreater => ".",
            KeyboardUsage::KeyboardSlashQuestion => "/",
            KeyboardUsage::KeyboardF1 => "F1",
            KeyboardUsage::KeyboardF2 => "F2",
            KeyboardUsage::KeyboardF3 => "F3",
            KeyboardUsage::KeyboardF4 => "F4",
            KeyboardUsage::KeyboardF5 => "F5",
            KeyboardUsage::KeyboardF6 => "F6",
            KeyboardUsage::KeyboardF7 => "F7",
            KeyboardUsage::KeyboardF8 => "F8",
            KeyboardUsage::KeyboardF9 => "F9",
            KeyboardUsage::KeyboardF10 => "F10",
            KeyboardUsage::KeyboardF11 => "F11",
            KeyboardUsage::KeyboardF12 => "F12",
            KeyboardUsage::KeyboardPrintScreen => "PrtSc",
            KeyboardUsage::KeyboardScrollLock => "ScrLk",
            KeyboardUsage::KeyboardPause => "Pause",
            KeyboardUsage::KeyboardInsert => "Ins",
            KeyboardUsage::KeyboardHome => "Home",
            KeyboardUsage::KeyboardPageUp => "PgUp",
            KeyboardUsage::KeyboardDelete => "Del",
            KeyboardUsage::KeyboardEnd => "End",
            KeyboardUsage::KeyboardPageDown => "PgDn",
            KeyboardUsage::KeyboardRightArrow => "→",
            KeyboardUsage::KeyboardLeftArrow => "←",
            KeyboardUsage::KeyboardDownArrow => "↓",
            KeyboardUsage::KeyboardUpArrow => "↑",
            KeyboardUsage::KeyboardLeftControl => "L Ctrl",
            KeyboardUsage::KeyboardLeftShift => "L Shift",
            KeyboardUsage::KeyboardLeftAlt => "L Alt",
            KeyboardUsage::KeyboardLeftGUI => "L GUI",
            KeyboardUsage::KeyboardRightControl => "R Ctrl",
            KeyboardUsage::KeyboardRightShift => "R Shift",
            KeyboardUsage::KeyboardRightAlt => "R Alt",
            KeyboardUsage::KeyboardRightGUI => "R GUI",
            KeyboardUsage::KeypadNumLock => "NumLk",
            KeyboardUsage::KeypadDivide => "Num /",
            KeyboardUsage::KeypadMultiply => "Num *",
            KeyboardUsage::KeypadMinus => "Num -",
            KeyboardUsage::KeypadPlus => "Num +",
            KeyboardUsage::KeypadEnter => "Num Ent",
            KeyboardUsage::Keypad1End => "Num 1",
            KeyboardUsage::Keypad2DownArrow => "Num 2",
            KeyboardUsage::Keypad3PageDown => "Num 3",
            KeyboardUsage::Keypad4LeftArrow => "Num 4",
            KeyboardUsage::Keypad5 => "Num 5",
            KeyboardUsage::Keypad6RightArrow => "Num 6",
            KeyboardUsage::Keypad7Home => "Num 7",
            KeyboardUsage::Keypad8UpArrow => "Num 8",
            KeyboardUsage::Keypad9PageUp => "Num 9",
            KeyboardUsage::Keypad0Insert => "Num 0",
            KeyboardUsage::KeypadPeriodDelete => "Num .",
            KeyboardUsage::KeypadEqual => "Num =",
            KeyboardUsage::KeyboardVolumeUp => "Vol+",
            KeyboardUsage::KeyboardVolumeDown => "Vol-",
            KeyboardUsage::KeyboardMute => "Mute",
            KeyboardUsage::KeyboardRaise => "Raise",
            KeyboardUsage::KeyboardLower => "Lower",
            KeyboardUsage::KeyboardEmpty => "",
            KeyboardUsage::KeyboardApplication => "App",
            KeyboardUsage::KeyboardPower => "Power",
            _ => "Unknown",
        }
    }

    /// The display label of this code as an owned string.
    pub fn label_string(self) -> (r: String)
        ensures
            r@ == label_view(self),
    {
        self.label().to_owned()
    }

    /// Resolve a label back to its symbolic code; a string that matches no
    /// label resolves to the sentinel.
    pub fn parse_label(s: &str) -> (r: KeyboardUsage)
        ensures
            r == parse_label_view(s@),
    {
        if str_eq(s, "A") {
            KeyboardUsage::KeyboardAa
        } else if str_eq(s, "B") {
            KeyboardUsage::KeyboardBb
        } else if str_eq(s, "C") {
            KeyboardUsage::KeyboardCc
        } else if str_eq(s, "D") {
            KeyboardUsage::KeyboardDd
        } else if str_eq(s, "E") {
            KeyboardUsage::KeyboardEe
        } else if str_eq(s, "F") {
            KeyboardUsage::KeyboardFf
        } else if str_eq(s, "G") {
            KeyboardUsage::KeyboardGg
        } else if str_eq(s, "H") {
            KeyboardUsage::KeyboardHh
        } else if str_eq(s, "I") {
            KeyboardUsage::KeyboardIi
        } else if str_eq(s, "J") {
            KeyboardUsage::KeyboardJj
        } else if str_eq(s, "K") {
            KeyboardUsage::KeyboardKk
        } else if str_eq(s, "L") {
            KeyboardUsage::KeyboardLl
        } else if str_eq(s, "M") {
            KeyboardUsage::KeyboardMm
        } else if str_eq(s, "N") {
            KeyboardUsage::KeyboardNn
        } else if str_eq(s, "O") {
            KeyboardUsage::KeyboardOo
        } else if str_eq(s, "P") {
            KeyboardUsage::KeyboardPp
        } else if str_eq(s, "Q") {
            KeyboardUsage::KeyboardQq
        } else if str_eq(s, "R") {
            KeyboardUsage::KeyboardRr
        } else if str_eq(s, "S") {
            KeyboardUsage::KeyboardSs
        } else if str_eq(s, "T") {
            KeyboardUsage::KeyboardTt
        } else if str_eq(s, "U") {
            KeyboardUsage::KeyboardUu
        } else if str_eq(s, "V") {
            KeyboardUsage::KeyboardVv
        } else if str_eq(s, "W") {
            KeyboardUsage::KeyboardWw
        } else if str_eq(s, "X") {
            KeyboardUsage::KeyboardXx
        } else if str_eq(s, "Y") {
            KeyboardUsage::KeyboardYy
        } else if str_eq(s, "Z") {
            KeyboardUsage::KeyboardZz
        } else if str_eq(s, "1") {
            KeyboardUsage::Keyboard1Exclamation
        } else if str_eq(s, "2") {
            KeyboardUsage::Keyboard2At
        } else if str_eq(s, "3") {
            KeyboardUsage::Keyboard3Hash
        } else if str_eq(s, "4") {
            KeyboardUsage::Keyboard4Dollar
        } else if str_eq(s, "5") {
            KeyboardUsage::Keyboard5Percent
        } else if str_eq(s, "6") {
            KeyboardUsage::Keyboard6Caret
        } else if str_eq(s, "7") {
            KeyboardUsage::Keyboard7Ampersand
        } else if str_eq(s, "8") {
            KeyboardUsage::Keyboard8Asterisk
        } else if str_eq(s, "9") {
            KeyboardUsage::Keyboard9OpenParens
        } else if str_eq(s, "0") {
            KeyboardUsage::Keyboard0CloseParens
        } else if str_eq(s, "Enter") {
            KeyboardUsage::KeyboardEnter
        } else if str_eq(s, "Esc") {
            KeyboardUsage::KeyboardEscape
        } else if str_eq(s, "BKSP") {
            KeyboardUsage::KeyboardBackspace
        } else if str_eq(s, "Tab") {
            KeyboardUsage::KeyboardTab
        } else if str_eq(s, "Space") {
            KeyboardUsage::KeyboardSpacebar
        } else if str_eq(s, "Caps") {
            KeyboardUsage::KeyboardCapsLock
        } else if str_eq(s, "-") {
            KeyboardUsage::KeyboardDashUnderscore
        } else if str_eq(s, "=") {
            KeyboardUsage::KeyboardEqualPlus
        } else if str_eq(s, "[") {
            KeyboardUsage::KeyboardOpenBracketBrace
        } else if str_eq(s, "]") {
            KeyboardUsage::KeyboardCloseBracketBrace
        } else if str_eq(s, "\\") {
            KeyboardUsage::KeyboardBackslashBar
        } else if str_eq(s, ";") {
            KeyboardUsage::KeyboardSemiColon
        } else if str_eq(s, "'") {
            KeyboardUsage::KeyboardSingleDoubleQuote
        } else if str_eq(s, "`") {
            KeyboardUsage::KeyboardBacktickTilde
        } else if str_eq(s, ",") {
            KeyboardUsage::KeyboardCommaLess
        } else if str_eq(s, ".") {
            KeyboardUsage::KeyboardPeriodGreater
        } else if str_eq(s, "/") {
            KeyboardUsage::KeyboardSlashQuestion
        } else if str_eq(s, "F1") {
            KeyboardUsage::KeyboardF1
        } else if str_eq(s, "F2") {
            KeyboardUsage::KeyboardF2
        } else if str_eq(s, "F3") {
            KeyboardUsage::KeyboardF3
        } else if str_eq(s, "F4") {
            KeyboardUsage::KeyboardF4
        } else if str_eq(s, "F5") {
            KeyboardUsage::KeyboardF5
        } else if str_eq(s, "F6") {
            KeyboardUsage::KeyboardF6
        } else if str_eq(s, "F7") {
            KeyboardUsage::KeyboardF7
        } else if str_eq(s, "F8") {
            KeyboardUsage::KeyboardF8
        } else if str_eq(s, "F9") {
            KeyboardUsage::KeyboardF9
        } else if str_eq(s, "F10") {
            KeyboardUsage::KeyboardF10
        } else if str_eq(s, "F11") {
            KeyboardUsage::KeyboardF11
        } else if str_eq(s, "F12") {
            KeyboardUsage::KeyboardF12
        } else if str_eq(s, "PrtSc") {
            KeyboardUsage::KeyboardPrintScreen
        } else if str_eq(s, "ScrLk") {
            KeyboardUsage::KeyboardScrollLock
        } else if str_eq(s, "Pause") {
            KeyboardUsage::KeyboardPause
        } else if str_eq(s, "Ins") {
            KeyboardUsage::KeyboardInsert
        } else if str_eq(s, "Home") {
            KeyboardUsage::KeyboardHome
        } else if str_eq(s, "PgUp") {
            KeyboardUsage::KeyboardPageUp
        } else if str_eq(s, "Del") {
            KeyboardUsage::KeyboardDelete
        } else if str_eq(s, "End") {
            KeyboardUsage::KeyboardEnd
        } else if str_eq(s, "PgDn") {
            KeyboardUsage::KeyboardPageDown
        } else if str_eq(s, "→") {
            KeyboardUsage::KeyboardRightArrow
        } else if str_eq(s, "←") {
            KeyboardUsage::KeyboardLeftArrow
        } else if str_eq(s, "↓") {
            KeyboardUsage::KeyboardDownArrow
        } else if str_eq(s, "↑") {
            KeyboardUsage::KeyboardUpArrow
        } else if str_eq(s, "L Ctrl") {
            KeyboardUsage::KeyboardLeftControl
        } else if str_eq(s, "L Shift") {
            KeyboardUsage::KeyboardLeftShift
        } else if str_eq(s, "L Alt") {
            KeyboardUsage::KeyboardLeftAlt
        } else if str_eq(s, "L GUI") {
            KeyboardUsage::KeyboardLeftGUI
        } else if str_eq(s, "R Ctrl") {
            KeyboardUsage::KeyboardRightControl
        } else if str_eq(s, "R Shift") {
            KeyboardUsage::KeyboardRightShift
        } else if str_eq(s, "R Alt") {
            KeyboardUsage::KeyboardRightAlt
        } else if str_eq(s, "R GUI") {
            KeyboardUsage::KeyboardRightGUI
        } else if str_eq(s, "NumLk") {
            KeyboardUsage::KeypadNumLock
        } else if str_eq(s, "Num /") {
            KeyboardUsage::KeypadDivide
        } else if str_eq(s, "Num *") {
            KeyboardUsage::KeypadMultiply
        } else if str_eq(s, "Num -") {
            KeyboardUsage::KeypadMinus
        } else if str_eq(s, "Num +") {
            KeyboardUsage::KeypadPlus
        } else if str_eq(s, "Num Ent") {
            KeyboardUsage::KeypadEnter
        } else if str_eq(s, "Num 1") {
            KeyboardUsage::Keypad1End
        } else if str_eq(s, "Num 2") {
            KeyboardUsage::Keypad2DownArrow
        } else if str_eq(s, "Num 3") {
            KeyboardUsage::Keypad3PageDown
        } else if str_eq(s, "Num 4") {
            KeyboardUsage::Keypad4LeftArrow
        } else if str_eq(s, "Num 5") {
            KeyboardUsage::Keypad5
        } else if str_eq(s, "Num 6") {
            KeyboardUsage::Keypad6RightArrow
        } else if str_eq(s, "Num 7") {
            KeyboardUsage::Keypad7Home
        } else if str_eq(s, "Num 8") {
            KeyboardUsage::Keypad8UpArrow
        } else if str_eq(s, "Num 9") {
            KeyboardUsage::Keypad9PageUp
        } else if str_eq(s, "Num 0") {
            KeyboardUsage::Keypad0Insert
        } else if str_eq(s, "Num .") {
            KeyboardUsage::KeypadPeriodDelete
        } else if str_eq(s, "Num =") {
            KeyboardUsage::KeypadEqual
        } else if str_eq(s, "Vol+") {
            KeyboardUsage::KeyboardVolumeUp
        } else if str_eq(s, "Vol-") {
            KeyboardUsage::KeyboardVolumeDown
        } else if str_eq(s, "Mute") {
            KeyboardUsage::KeyboardMute
        } else if str_eq(s, "Raise") {
            KeyboardUsage::KeyboardRaise
        } else if str_eq(s, "Lower") {
            KeyboardUsage::KeyboardLower
        } else if str_eq(s, "") {
            KeyboardUsage::KeyboardEmpty
        } else if str_eq(s, "App") {
            KeyboardUsage::KeyboardApplication
        } else if str_eq(s, "Power") {
            KeyboardUsage::KeyboardPower
        } else {
            KeyboardUsage::Reserved
        }
    }
}

/// Decoding is total and encoding inverts it wherever it can: for every byte,
/// either the decoded code encodes back to that same byte, or the byte lies
/// in an unassigned range and decodes to the sentinel, whose own identifier
/// is the fixed byte `0xE8`.
pub proof fn lemma_decode_encode_round_trip(b: u8)
    ensures
        usage_of_byte(b) == KeyboardUsage::Reserved || byte_of(usage_of_byte(b)) == b,
        byte_of(KeyboardUsage::Reserved) == 0xE8,
{
}

/// The symbolic code whose canonical variant name a byte string spells.
/// Earlier versions of the stored format persisted codes under these names,
/// so the parser accepts them alongside the numeric identifiers. Opaque: the
/// table is large, and callers reason through [`KeyboardUsage::decode_name`].
#[verifier::opaque]
pub open spec fn usage_of_name(s: Seq<u8>) -> Option<KeyboardUsage> {
    if s == "KeyboardErrorRollOver".spec_bytes() {
        Some(KeyboardUsage::KeyboardErrorRollOver)
    } else if s == "KeyboardPOSTFail".spec_bytes() {
        Some(KeyboardUsage::KeyboardPOSTFail)
    } else if s == "KeyboardErrorUndefined".spec_bytes() {
        Some(KeyboardUsage::KeyboardErrorUndefined)
    } else if s == "KeyboardAa".spec_bytes() {
        Some(KeyboardUsage::KeyboardAa)
    } else if s == "KeyboardBb".spec_bytes() {
        Some(KeyboardUsage::KeyboardBb)
    } else if s == "KeyboardCc".spec_bytes() {
        Some(KeyboardUsage::KeyboardCc)
    } else if s == "KeyboardDd".spec_bytes() {
        Some(KeyboardUsage::KeyboardDd)
    } else if s == "KeyboardEe".spec_bytes() {
        Some(KeyboardUsage::KeyboardEe)
    } else if s == "KeyboardFf".spec_bytes() {
        Some(KeyboardUsage::KeyboardFf)
    } else if s == "KeyboardGg".spec_bytes() {
        Some(KeyboardUsage::KeyboardGg)
    } else if s == "KeyboardHh".spec_bytes() {
        Some(KeyboardUsage::KeyboardHh)
    } else if s == "KeyboardIi".spec_bytes() {
        Some(KeyboardUsage::KeyboardIi)
    } else if s == "KeyboardJj".spec_bytes() {
        Some(KeyboardUsage::KeyboardJj)
    } else if s == "KeyboardKk".spec_bytes() {
        Some(KeyboardUsage::KeyboardKk)
    } else if s == "KeyboardLl".spec_bytes() {
        Some(KeyboardUsage::KeyboardLl)
    } else if s == "KeyboardMm".spec_bytes() {
        Some(KeyboardUsage::KeyboardMm)
    } else if s == "KeyboardNn".spec_bytes() {
        Some(KeyboardUsage::KeyboardNn)
    } else if s == "KeyboardOo".spec_bytes() {
        Some(KeyboardUsage::KeyboardOo)
    } else if s == "KeyboardPp".spec_bytes() {
        Some(KeyboardUsage::KeyboardPp)
    } else if s == "KeyboardQq".spec_bytes() {
        Some(KeyboardUsage::KeyboardQq)
    } else if s == "KeyboardRr".spec_bytes() {
        Some(KeyboardUsage::KeyboardRr)
    } else if s == "KeyboardSs".spec_bytes() {
        Some(KeyboardUsage::KeyboardSs)
    } else if s == "KeyboardTt".spec_bytes() {
        Some(KeyboardUsage::KeyboardTt)
    } else if s == "KeyboardUu".spec_bytes() {
        Some(KeyboardUsage::KeyboardUu)
    } else if s == "KeyboardVv".spec_bytes() {
        Some(KeyboardUsage::KeyboardVv)
    } else if s == "KeyboardWw".spec_bytes() {
        Some(KeyboardUsage::KeyboardWw)
    } else if s == "KeyboardXx".spec_bytes() {
        Some(KeyboardUsage::KeyboardXx)
    } else if s == "KeyboardYy".spec_bytes() {
        Some(KeyboardUsage::KeyboardYy)
    } else if s == "KeyboardZz".spec_bytes() {
        Some(KeyboardUsage::KeyboardZz)
    } else if s == "Keyboard1Exclamation".spec_bytes() {
        Some(KeyboardUsage::Keyboard1Exclamation)
    } else if s == "Keyboard2At".spec_bytes() {
        Some(KeyboardUsage::Keyboard2At)
    } else if s == "Keyboard3Hash".spec_bytes() {
        Some(KeyboardUsage::Keyboard3Hash)
    } else if s == "Keyboard4Dollar".spec_bytes() {
        Some(KeyboardUsage::Keyboard4Dollar)
    } else if s == "Keyboard5Percent".spec_bytes() {
        Some(KeyboardUsage::Keyboard5Percent)
    } else if s == "Keyboard6Caret".spec_bytes() {
        Some(KeyboardUsage::Keyboard6Caret)
    } else if s == "Keyboard7Ampersand".spec_bytes() {
        Some(KeyboardUsage::Keyboard7Ampersand)
    } else if s == "Keyboard8Asterisk".spec_bytes() {
        Some(KeyboardUsage::Keyboard8Asterisk)
    } else if s == "Keyboard9OpenParens".spec_bytes() {
        Some(KeyboardUsage::Keyboard9OpenParens)
    } else if s == "Keyboard0CloseParens".spec_bytes() {
        Some(KeyboardUsage::Keyboard0CloseParens)
    } else if s == "KeyboardEnter".spec_bytes() {
        Some(KeyboardUsage::KeyboardEnter)
    } else if s == "KeyboardEscape".spec_bytes() {
        Some(KeyboardUsage::KeyboardEscape)
    } else if s == "KeyboardBackspace".spec_bytes() {
        Some(KeyboardUsage::KeyboardBackspace)
    } else if s == "KeyboardTab".spec_bytes() {
        Some(KeyboardUsage::KeyboardTab)
    } else if s == "KeyboardSpacebar".spec_bytes() {
        Some(KeyboardUsage::KeyboardSpacebar)
    } else if s == "KeyboardDashUnderscore".spec_bytes() {
        Some(KeyboardUsage::KeyboardDashUnderscore)
    } else if s == "KeyboardEqualPlus".spec_bytes() {
        Some(KeyboardUsage::KeyboardEqualPlus)
    } else if s == "KeyboardOpenBracketBrace".spec_bytes() {
        Some(KeyboardUsage::KeyboardOpenBracketBrace)
    } else if s == "KeyboardCloseBracketBrace".spec_bytes() {
        Some(KeyboardUsage::KeyboardCloseBracketBrace)
    } else if s == "KeyboardBackslashBar".spec_bytes() {
        Some(KeyboardUsage::KeyboardBackslashBar)
    } else if s == "KeyboardNonUSHash".spec_bytes() {
        Some(KeyboardUsage::KeyboardNonUSHash)
    } else if s == "KeyboardSemiColon".spec_bytes() {
        Some(KeyboardUsage::KeyboardSemiColon)
    } else if s == "KeyboardSingleDoubleQuote".spec_bytes() {
        Some(KeyboardUsage::KeyboardSingleDoubleQuote)
    } else if s == "KeyboardBacktickTilde".spec_bytes() {
        Some(KeyboardUsage::KeyboardBacktickTilde)
    } else if s == "KeyboardCommaLess".spec_bytes() {
        Some(KeyboardUsage::KeyboardCommaLess)
    } else if s == "KeyboardPeriodGreater".spec_bytes() {
        Some(KeyboardUsage::KeyboardPeriodGreater)
    } else if s == "KeyboardSlashQuestion".spec_bytes() {
        Some(KeyboardUsage::KeyboardSlashQuestion)
    } else if s == "KeyboardCapsLock".spec_bytes() {
        Some(KeyboardUsage::KeyboardCapsLock)
    } else if s == "KeyboardF1".spec_bytes() {
        Some(KeyboardUsage::KeyboardF1)
    } else if s == "KeyboardF2".spec_bytes() {
        Some(KeyboardUsage::KeyboardF2)
    } else if s == "KeyboardF3".spec_bytes() {
        Some(KeyboardUsage::KeyboardF3)
    } else if s == "KeyboardF4".spec_bytes() {
        Some(KeyboardUsage::KeyboardF4)
    } else if s == "KeyboardF5".spec_bytes() {
        Some(KeyboardUsage::KeyboardF5)
    } else if s == "KeyboardF6".spec_bytes() {
        Some(KeyboardUsage::KeyboardF6)
    } else if s == "KeyboardF7".spec_bytes() {
        Some(KeyboardUsage::KeyboardF7)
    } else if s == "KeyboardF8".spec_bytes() {
        Some(KeyboardUsage::KeyboardF8)
    } else if s == "KeyboardF9".spec_bytes() {
        Some(KeyboardUsage::KeyboardF9)
    } else if s == "KeyboardF10".spec_bytes() {
        Some(KeyboardUsage::KeyboardF10)
    } else if s == "KeyboardF11".spec_bytes() {
        Some(KeyboardUsage::KeyboardF11)
    } else if s == "KeyboardF12".spec_bytes() {
        Some(KeyboardUsage::KeyboardF12)
    } else if s == "KeyboardPrintScreen".spec_bytes() {
        Some(KeyboardUsage::KeyboardPrintScreen)
    } else if s == "KeyboardScrollLock".spec_bytes() {
        Some(KeyboardUsage::KeyboardScrollLock)
    } else if s == "KeyboardPause".spec_bytes() {
        Some(KeyboardUsage::KeyboardPause)
    } else if s == "KeyboardInsert".spec_bytes() {
        Some(KeyboardUsage::KeyboardInsert)
    } else if s == "KeyboardHome".spec_bytes() {
        Some(KeyboardUsage::KeyboardHome)
    } else if s == "KeyboardPageUp".spec_bytes() {
        Some(KeyboardUsage::KeyboardPageUp)
    } else if s == "KeyboardDelete".spec_bytes() {
        Some(KeyboardUsage::KeyboardDelete)
    } else if s == "KeyboardEnd".spec_bytes() {
        Some(KeyboardUsage::KeyboardEnd)
    } else if s == "KeyboardPageDown".spec_bytes() {
        Some(KeyboardUsage::KeyboardPageDown)
    } else if s == "KeyboardRightArrow".spec_bytes() {
        Some(KeyboardUsage::KeyboardRightArrow)
    } else if s == "KeyboardLeftArrow".spec_bytes() {
        Some(KeyboardUsage::KeyboardLeftArrow)
    } else if s == "KeyboardDownArrow".spec_bytes() {
        Some(KeyboardUsage::KeyboardDownArrow)
    } else if s == "KeyboardUpArrow".spec_bytes() {
        Some(KeyboardUsage::KeyboardUpArrow)
    } else if s == "KeypadNumLock".spec_bytes() {
        Some(KeyboardUsage::KeypadNumLock)
    } else if s == "KeypadDivide".spec_bytes() {
        Some(KeyboardUsage::KeypadDivide)
    } else if s == "KeypadMultiply".spec_bytes() {
        Some(KeyboardUsage::KeypadMultiply)
    } else if s == "KeypadMinus".spec_bytes() {
        Some(KeyboardUsage::KeypadMinus)
    } else if s == "KeypadPlus".spec_bytes() {
        Some(KeyboardUsage::KeypadPlus)
    } else if s == "KeypadEnter".spec_bytes() {
        Some(KeyboardUsage::KeypadEnter)
    } else if s == "Keypad1End".spec_bytes() {
        Some(KeyboardUsage::Keypad1End)
    } else if s == "Keypad2DownArrow".spec_bytes() {
        Some(KeyboardUsage::Keypad2DownArrow)
    } else if s == "Keypad3PageDown".spec_bytes() {
        Some(KeyboardUsage::Keypad3PageDown)
    } else if s == "Keypad4LeftArrow".spec_bytes() {
        Some(KeyboardUsage::Keypad4LeftArrow)
    } else if s == "Keypad5".spec_bytes() {
        Some(KeyboardUsage::Keypad5)
    } else if s == "Keypad6RightArrow".spec_bytes() {
        Some(KeyboardUsage::Keypad6RightArrow)
    } else if s == "Keypad7Home".spec_bytes() {
        Some(KeyboardUsage::Keypad7Home)
    } else if s == "Keypad8UpArrow".spec_bytes() {
        Some(KeyboardUsage::Keypad8UpArrow)
    } else if s == "Keypad9PageUp".spec_bytes() {
        Some(KeyboardUsage::Keypad9PageUp)
    } else if s == "Keypad0Insert".spec_bytes() {
        Some(KeyboardUsage::Keypad0Insert)
    } else if s == "KeypadPeriodDelete".spec_bytes() {
        Some(KeyboardUsage::KeypadPeriodDelete)
    } else if s == "KeyboardNonUSSlash".spec_bytes() {
        Some(KeyboardUsage::KeyboardNonUSSlash)
    } else if s == "KeyboardApplication".spec_bytes() {
        Some(KeyboardUsage::KeyboardApplication)
    } else if s == "KeyboardPower".spec_bytes() {
        Some(KeyboardUsage::KeyboardPower)
    } else if s == "KeypadEqual".spec_bytes() {
        Some(KeyboardUsage::KeypadEqual)
    } else if s == "KeyboardF13".spec_bytes() {
        Some(KeyboardUsage::KeyboardF13)
    } else if s == "KeyboardF14".spec_bytes() {
        Some(KeyboardUsage::KeyboardF14)
    } else if s == "KeyboardF15".spec_bytes() {
        Some(KeyboardUsage::KeyboardF15)
    } else if s == "KeyboardF16".spec_bytes() {
        Some(KeyboardUsage::KeyboardF16)
    } else if s == "KeyboardF17".spec_bytes() {
        Some(KeyboardUsage::KeyboardF17)
    } else if s == "KeyboardF18".spec_bytes() {
        Some(KeyboardUsage::KeyboardF18)
    } else if s == "KeyboardF19".spec_bytes() {
        Some(KeyboardUsage::KeyboardF19)
    } else if s == "KeyboardF20".spec_bytes() {
        Some(KeyboardUsage::KeyboardF20)
    } else if s == "KeyboardF21".spec_bytes() {
        Some(KeyboardUsage::KeyboardF21)
    } else if s == "KeyboardF22".spec_bytes() {
        Some(KeyboardUsage::KeyboardF22)
    } else if s == "KeyboardF23".spec_bytes() {
        Some(KeyboardUsage::KeyboardF23)
    } else if s == "KeyboardF24".spec_bytes() {
        Some(KeyboardUsage::KeyboardF24)
    } else if s == "KeyboardExecute".spec_bytes() {
        Some(KeyboardUsage::KeyboardExecute)
    } else if s == "KeyboardHelp".spec_bytes() {
        Some(KeyboardUsage::KeyboardHelp)
    } else if s == "KeyboardMenu".spec_bytes() {
        Some(KeyboardUsage::KeyboardMenu)
    } else if s == "KeyboardSelect".spec_bytes() {
        Some(KeyboardUsage::KeyboardSelect)
    } else if s == "KeyboardStop".spec_bytes() {
        Some(KeyboardUsage::KeyboardStop)
    } else if s == "KeyboardAgain".spec_bytes() {
        Some(KeyboardUsage::KeyboardAgain)
    } else if s == "KeyboardUndo".spec_bytes() {
        Some(KeyboardUsage::KeyboardUndo)
    } else if s == "KeyboardCut".spec_bytes() {
        Some(KeyboardUsage::KeyboardCut)
    } else if s == "KeyboardCopy".spec_bytes() {
        Some(KeyboardUsage::KeyboardCopy)
    } else if s == "KeyboardPaste".spec_bytes() {
        Some(KeyboardUsage::KeyboardPaste)
    } else if s == "KeyboardFind".spec_bytes() {
        Some(KeyboardUsage::KeyboardFind)
    } else if s == "KeyboardMute".spec_bytes() {
        Some(KeyboardUsage::KeyboardMute)
    } else if s == "KeyboardVolumeUp".spec_bytes() {
        Some(KeyboardUsage::KeyboardVolumeUp)
    } else if s == "KeyboardVolumeDown".spec_bytes() {
        Some(KeyboardUsage::KeyboardVolumeDown)
    } else if s == "KeyboardLockingCapsLock".spec_bytes() {
        Some(KeyboardUsage::KeyboardLockingCapsLock)
    } else if s == "KeyboardLockingNumLock".spec_bytes() {
        Some(KeyboardUsage::KeyboardLockingNumLock)
    } else if s == "KeyboardLockingScrollLock".spec_bytes() {
        Some(KeyboardUsage::KeyboardLockingScrollLock)
    } else if s == "KeypadComma".spec_bytes() {
        Some(KeyboardUsage::KeypadComma)
    } else if s == "KeypadEqualSign".spec_bytes() {
        Some(KeyboardUsage::KeypadEqualSign)
    } else if s == "KeyboardInternational1".spec_bytes() {
        Some(KeyboardUsage::KeyboardInternational1)
    } else if s == "KeyboardInternational2".spec_bytes() {
        Some(KeyboardUsage::KeyboardInternational2)
    } else if s == "KeyboardInternational3".spec_bytes() {
        Some(KeyboardUsage::KeyboardInternational3)
    } else if s == "KeyboardInternational4".spec_bytes() {
        Some(KeyboardUsage::KeyboardInternational4)
    } else if s == "KeyboardInternational5".spec_bytes() {
        Some(KeyboardUsage::KeyboardInternational5)
    } else if s == "KeyboardInternational6".spec_bytes() {
        Some(KeyboardUsage::KeyboardInternational6)
    } else if s == "KeyboardInternational7".spec_bytes() {
        Some(KeyboardUsage::KeyboardInternational7)
    } else if s == "KeyboardInternational8".spec_bytes() {
        Some(KeyboardUsage::KeyboardInternational8)
    } else if s == "KeyboardInternational9".spec_bytes() {
        Some(KeyboardUsage::KeyboardInternational9)
    } else if s == "KeyboardLANG1".spec_bytes() {
        Some(KeyboardUsage::KeyboardLANG1)
    } else if s == "KeyboardLANG2".spec_bytes() {
        Some(KeyboardUsage::KeyboardLANG2)
    } else if s == "KeyboardLANG3".spec_bytes() {
        Some(KeyboardUsage::KeyboardLANG3)
    } else if s == "KeyboardLANG4".spec_bytes() {
        Some(KeyboardUsage::KeyboardLANG4)
    } else if s == "KeyboardLANG5".spec_bytes() {
        Some(KeyboardUsage::KeyboardLANG5)
    } else if s == "KeyboardLANG6".spec_bytes() {
        Some(KeyboardUsage::KeyboardLANG6)
    } else if s == "KeyboardLANG7".spec_bytes() {
        Some(KeyboardUsage::KeyboardLANG7)
    } else if s == "KeyboardLANG8".spec_bytes() {
        Some(KeyboardUsage::KeyboardLANG8)
    } else if s == "KeyboardLANG9".spec_bytes() {
        Some(KeyboardUsage::KeyboardLANG9)
    } else if s == "KeyboardAlternateErase".spec_bytes() {
        Some(KeyboardUsage::KeyboardAlternateErase)
    } else if s == "KeyboardSysReqAttention".spec_bytes() {
        Some(KeyboardUsage::KeyboardSysReqAttention)
    } else if s == "KeyboardCancel".spec_bytes() {
        Some(KeyboardUsage::KeyboardCancel)
    } else if s == "KeyboardClear".spec_bytes() {
        Some(KeyboardUsage::KeyboardClear)
    } else if s == "KeyboardPrior".spec_bytes() {
        Some(KeyboardUsage::KeyboardPrior)
    } else if s == "KeyboardReturn".spec_bytes() {
        Some(KeyboardUsage::KeyboardReturn)
    } else if s == "KeyboardSeparator".spec_bytes() {
        Some(KeyboardUsage::KeyboardSeparator)
    } else if s == "KeyboardOut".spec_bytes() {
        Some(KeyboardUsage::KeyboardOut)
    } else if s == "KeyboardOper".spec_bytes() {
        Some(KeyboardUsage::KeyboardOper)
    } else if s == "KeyboardClearAgain".spec_bytes() {
        Some(KeyboardUsage::KeyboardClearAgain)
    } else if s == "KeyboardCrSelProps".spec_bytes() {
        Some(KeyboardUsage::KeyboardCrSelProps)
    } else if s == "KeyboardExSel".spec_bytes() {
        Some(KeyboardUsage::KeyboardExSel)
    } else if s == "Keypad00".spec_bytes() {
        Some(KeyboardUsage::Keypad00)
    } else if s == "Keypad000".spec_bytes() {
        Some(KeyboardUsage::Keypad000)
    } else if s == "ThousandsSeparator".spec_bytes() {
        Some(KeyboardUsage::ThousandsSeparator)
    } else if s == "DecimalSeparator".spec_bytes() {
        Some(KeyboardUsage::DecimalSeparator)
    } else if s == "CurrencyUnit".spec_bytes() {
        Some(KeyboardUsage::CurrencyUnit)
    } else if s == "CurrencySubunit".spec_bytes() {
        Some(KeyboardUsage::CurrencySubunit)
    } else if s == "KeypadOpenParens".spec_bytes() {
        Some(KeyboardUsage::KeypadOpenParens)
    } else if s == "KeypadCloseParens".spec_bytes() {
        Some(KeyboardUsage::KeypadCloseParens)
    } else if s == "KeypadOpenBrace".spec_bytes() {
        Some(KeyboardUsage::KeypadOpenBrace)
    } else if s == "KeypadCloseBrace".spec_bytes() {
        Some(KeyboardUsage::KeypadCloseBrace)
    } else if s == "KeypadTab".spec_bytes() {
        Some(KeyboardUsage::KeypadTab)
    } else if s == "KeypadBackspace".spec_bytes() {
        Some(KeyboardUsage::KeypadBackspace)
    } else if s == "KeypadA".spec_bytes() {
        Some(KeyboardUsage::KeypadA)
    } else if s == "KeypadB".spec_bytes() {
        Some(KeyboardUsage::KeypadB)
    } else if s == "KeypadC".spec_bytes() {
        Some(KeyboardUsage::KeypadC)
    } else if s == "KeypadD".spec_bytes() {
        Some(KeyboardUsage::KeypadD)
    } else if s == "KeypadE".spec_bytes() {
        Some(KeyboardUsage::KeypadE)
    } else if s == "KeypadF".spec_bytes() {
        Some(KeyboardUsage::KeypadF)
    } else if s == "KeypadBitwiseXor".spec_bytes() {
        Some(KeyboardUsage::KeypadBitwiseXor)
    } else if s == "KeypadLogicalXor".spec_bytes() {
        Some(KeyboardUsage::KeypadLogicalXor)
    } else if s == "KeypadModulo".spec_bytes() {
        Some(KeyboardUsage::KeypadModulo)
    } else if s == "KeypadLeftShift".spec_bytes() {
        Some(KeyboardUsage::KeypadLeftShift)
    } else if s == "KeypadRightShift".spec_bytes() {
        Some(KeyboardUsage::KeypadRightShift)
    } else if s == "KeypadBitwiseAnd".spec_bytes() {
        Some(KeyboardUsage::KeypadBitwiseAnd)
    } else if s == "KeypadLogicalAnd".spec_bytes() {
        Some(KeyboardUsage::KeypadLogicalAnd)
    } else if s == "KeypadBitwiseOr".spec_bytes() {
        Some(KeyboardUsage::KeypadBitwiseOr)
    } else if s == "KeypadLogicalOr".spec_bytes() {
        Some(KeyboardUsage::KeypadLogicalOr)
    } else if s == "KeypadColon".spec_bytes() {
        Some(KeyboardUsage::KeypadColon)
    } else if s == "KeypadHash".spec_bytes() {
        Some(KeyboardUsage::KeypadHash)
    } else if s == "KeypadSpace".spec_bytes() {
        Some(KeyboardUsage::KeypadSpace)
    } else if s == "KeypadAt".spec_bytes() {
        Some(KeyboardUsage::KeypadAt)
    } else if s == "KeypadExclamation".spec_bytes() {
        Some(KeyboardUsage::KeypadExclamation)
    } else if s == "KeypadMemoryStore".spec_bytes() {
        Some(KeyboardUsage::KeypadMemoryStore)
    } else if s == "KeypadMemoryRecall".spec_bytes() {
        Some(KeyboardUsage::KeypadMemoryRecall)
    } else if s == "KeypadMemoryClear".spec_bytes() {
        Some(KeyboardUsage::KeypadMemoryClear)
    } else if s == "KeypadMemoryAdd".spec_bytes() {
        Some(KeyboardUsage::KeypadMemoryAdd)
    } else if s == "KeypadMemorySubtract".spec_bytes() {
        Some(KeyboardUsage::KeypadMemorySubtract)
    } else if s == "KeypadMemoryMultiply".spec_bytes() {
        Some(KeyboardUsage::KeypadMemoryMultiply)
    } else if s == "KeypadMemoryDivide".spec_bytes() {
        Some(KeyboardUsage::KeypadMemoryDivide)
    } else if s == "KeypadPositiveNegative".spec_bytes() {
        Some(KeyboardUsage::KeypadPositiveNegative)
    } else if s == "KeypadClear".spec_bytes() {
        Some(KeyboardUsage::KeypadClear)
    } else if s == "KeypadClearEntry".spec_bytes() {
        Some(KeyboardUsage::KeypadClearEntry)
    } else if s == "KeypadBinary".spec_bytes() {
        Some(KeyboardUsage::KeypadBinary)
    } else if s == "KeypadOctal".spec_bytes() {
        Some(KeyboardUsage::KeypadOctal)
    } else if s == "KeypadDecimal".spec_bytes() {
        Some(KeyboardUsage::KeypadDecimal)
    } else if s == "KeypadHexadecimal".spec_bytes() {
        Some(KeyboardUsage::KeypadHexadecimal)
    } else if s == "KeyboardLeftControl".spec_bytes() {
        Some(KeyboardUsage::KeyboardLeftControl)
    } else if s == "KeyboardLeftShift".spec_bytes() {
        Some(KeyboardUsage::KeyboardLeftShift)
    } else if s == "KeyboardLeftAlt".spec_bytes() {
        Some(KeyboardUsage::KeyboardLeftAlt)
    } else if s == "KeyboardLeftGUI".spec_bytes() {
        Some(KeyboardUsage::KeyboardLeftGUI)
    } else if s == "KeyboardRightControl".spec_bytes() {
        Some(KeyboardUsage::KeyboardRightControl)
    } else if s == "KeyboardRightShift".spec_bytes() {
        Some(KeyboardUsage::KeyboardRightShift)
    } else if s == "KeyboardRightAlt".spec_bytes() {
        Some(KeyboardUsage::KeyboardRightAlt)
    } else if s == "KeyboardRightGUI".spec_bytes() {
        Some(KeyboardUsage::KeyboardRightGUI)
    } else if s == "Reserved".spec_bytes() {
        Some(KeyboardUsage::Reserved)
    } else if s == "KeyboardRaise".spec_bytes() {
        Some(KeyboardUsage::KeyboardRaise)
    } else if s == "KeyboardLower".spec_bytes() {
        Some(KeyboardUsage::KeyboardLower)
    } else if s == "KeyboardEmpty".spec_bytes() {
        Some(KeyboardUsage::KeyboardEmpty)
    } else {
        None
    }
}

/// Byte-for-byte equality of two byte strings.
fn bytes_eq(a: &[u8], b: &[u8]) -> (r: bool)
    ensures
        r == (a@ == b@),
{
    let n = a.len();
    if n != b.len() {
        return false;
    }
    let mut i: usize = 0;
    while i < n
        invariant
            n == a@.len(),
            n == b@.len(),
            i <= n,
            forall|k: int| 0 <= k < i ==> a@[k] == b@[k],
        decreases n - i,
    {
        if a[i] != b[i] {
            return false;
        }
        i += 1;
    }
    proof {
        assert(a@ =~= b@);
    }
    true
}

impl KeyboardUsage {
    /// Resolve a canonical variant name, as stored by earlier versions of
    /// the format, back to its symbolic code.
    pub fn decode_name(name: &[u8]) -> (r: Option<KeyboardUsage>)
        ensures
            r == usage_of_name(name@),
    {
        proof {
            reveal(usage_of_name);
        }
        if bytes_eq(name, "KeyboardErrorRollOver".as_bytes()) {
            Some(KeyboardUsage::KeyboardErrorRollOver)
        } else if bytes_eq(name, "KeyboardPOSTFail".as_bytes()) {
            Some(KeyboardUsage::KeyboardPOSTFail)
        } else if bytes_eq(name, "KeyboardErrorUndefined".as_bytes()) {
            Some(KeyboardUsage::KeyboardErrorUndefined)
        } else if bytes_eq(name, "KeyboardAa".as_bytes()) {
            Some(KeyboardUsage::KeyboardAa)
        } else if bytes_eq(name, "KeyboardBb".as_bytes()) {
            Some(KeyboardUsage::KeyboardBb)
        } else if bytes_eq(name, "KeyboardCc".as_bytes()) {
            Some(KeyboardUsage::KeyboardCc)
        } else if bytes_eq(name, "KeyboardDd".as_bytes()) {
            Some(KeyboardUsage::KeyboardDd)
        } else if bytes_eq(name, "KeyboardEe".as_bytes()) {
            Some(KeyboardUsage::KeyboardEe)
        } else if bytes_eq(name, "KeyboardFf".as_bytes()) {
            Some(KeyboardUsage::KeyboardFf)
        } else if bytes_eq(name, "KeyboardGg".as_bytes()) {
            Some(KeyboardUsage::KeyboardGg)
        } else if bytes_eq(name, "KeyboardHh".as_bytes()) {
            Some(KeyboardUsage::KeyboardHh)
        } else if bytes_eq(name, "KeyboardIi".as_bytes()) {
            Some(KeyboardUsage::KeyboardIi)
        } else if bytes_eq(name, "KeyboardJj".as_bytes()) {
            Some(KeyboardUsage::KeyboardJj)
        } else if bytes_eq(name, "KeyboardKk".as_bytes()) {
            Some(KeyboardUsage::KeyboardKk)
        } else if bytes_eq(name, "KeyboardLl".as_bytes()) {
            Some(KeyboardUsage::KeyboardLl)
        } else if bytes_eq(name, "KeyboardMm".as_bytes()) {
            Some(KeyboardUsage::KeyboardMm)
        } else if bytes_eq(name, "KeyboardNn".as_bytes()) {
            Some(KeyboardUsage::KeyboardNn)
        } else if bytes_eq(name, "KeyboardOo".as_bytes()) {
            Some(KeyboardUsage::KeyboardOo)
        } else if bytes_eq(name, "KeyboardPp".as_bytes()) {
            Some(KeyboardUsage::KeyboardPp)
        } else if bytes_eq(name, "KeyboardQq".as_bytes()) {
            Some(KeyboardUsage::KeyboardQq)
        } else if bytes_eq(name, "KeyboardRr".as_bytes()) {
            Some(KeyboardUsage::KeyboardRr)
        } else if bytes_eq(name, "KeyboardSs".as_bytes()) {
            Some(KeyboardUsage::KeyboardSs)
        } else if bytes_eq(name, "KeyboardTt".as_bytes()) {
            Some(KeyboardUsage::KeyboardTt)
        } else if bytes_eq(name, "KeyboardUu".as_bytes()) {
            Some(KeyboardUsage::KeyboardUu)
        } else if bytes_eq(name, "KeyboardVv".as_bytes()) {
            Some(KeyboardUsage::KeyboardVv)
        } else if bytes_eq(name, "KeyboardWw".as_bytes()) {
            Some(KeyboardUsage::KeyboardWw)
        } else if bytes_eq(name, "KeyboardXx".as_bytes()) {
            Some(KeyboardUsage::KeyboardXx)
        } else if bytes_eq(name, "KeyboardYy".as_bytes()) {
            Some(KeyboardUsage::KeyboardYy)
        } else if bytes_eq(name, "KeyboardZz".as_bytes()) {
            Some(KeyboardUsage::KeyboardZz)
        } else if bytes_eq(name, "Keyboard1Exclamation".as_bytes()) {
            Some(KeyboardUsage::Keyboard1Exclamation)
        } else if bytes_eq(name, "Keyboard2At".as_bytes()) {
            Some(KeyboardUsage::Keyboard2At)
        } else if bytes_eq(name, "Keyboard3Hash".as_bytes()) {
            Some(KeyboardUsage::Keyboard3Hash)
        } else if bytes_eq(name, "Keyboard4Dollar".as_bytes()) {
            Some(KeyboardUsage::Keyboard4Dollar)
        } else if bytes_eq(name, "Keyboard5Percent".as_bytes()) {
            Some(KeyboardUsage::Keyboard5Percent)
        } else if bytes_eq(name, "Keyboard6Caret".as_bytes()) {
            Some(KeyboardUsage::Keyboard6Caret)
        } else if bytes_eq(name, "Keyboard7Ampersand".as_bytes()) {
            Some(KeyboardUsage::Keyboard7Ampersand)
        } else if bytes_eq(name, "Keyboard8Asterisk".as_bytes()) {
            Some(KeyboardUsage::Keyboard8Asterisk)
        } else if bytes_eq(name, "Keyboard9OpenParens".as_bytes()) {
            Some(KeyboardUsage::Keyboard9OpenParens)
        } else if bytes_eq(name, "Keyboard0CloseParens".as_bytes()) {
            Some(KeyboardUsage::Keyboard0CloseParens)
        } else if bytes_eq(name, "KeyboardEnter".as_bytes()) {
            Some(KeyboardUsage::KeyboardEnter)
        } else if bytes_eq(name, "KeyboardEscape".as_bytes()) {
            Some(KeyboardUsage::KeyboardEscape)
        } else if bytes_eq(name, "KeyboardBackspace".as_bytes()) {
            Some(KeyboardUsage::KeyboardBackspace)
        } else if bytes_eq(name, "KeyboardTab".as_bytes()) {
            Some(KeyboardUsage::KeyboardTab)
        } else if bytes_eq(name, "KeyboardSpacebar".as_bytes()) {
            Some(KeyboardUsage::KeyboardSpacebar)
        } else if bytes_eq(name, "KeyboardDashUnderscore".as_bytes()) {
            Some(KeyboardUsage::KeyboardDashUnderscore)
        } else if bytes_eq(name, "KeyboardEqualPlus".as_bytes()) {
            Some(KeyboardUsage::KeyboardEqualPlus)
        } else if bytes_eq(name, "KeyboardOpenBracketBrace".as_bytes()) {
            Some(KeyboardUsage::KeyboardOpenBracketBrace)
        } else if bytes_eq(name, "KeyboardCloseBracketBrace".as_bytes()) {
            Some(KeyboardUsage::KeyboardCloseBracketBrace)
        } else if bytes_eq(name, "KeyboardBackslashBar".as_bytes()) {
            Some(KeyboardUsage::KeyboardBackslashBar)
        } else if bytes_eq(name, "KeyboardNonUSHash".as_bytes()) {
            Some(KeyboardUsage::KeyboardNonUSHash)
        } else if bytes_eq(name, "KeyboardSemiColon".as_bytes()) {
            Some(KeyboardUsage::KeyboardSemiColon)
        } else if bytes_eq(name, "KeyboardSingleDoubleQuote".as_bytes()) {
            Some(KeyboardUsage::KeyboardSingleDoubleQuote)
        } else if bytes_eq(name, "KeyboardBacktickTilde".as_bytes()) {
            Some(KeyboardUsage::KeyboardBacktickTilde)
        } else if bytes_eq(name, "KeyboardCommaLess".as_bytes()) {
            Some(KeyboardUsage::KeyboardCommaLess)
        } else if bytes_eq(name, "KeyboardPeriodGreater".as_bytes()) {
            Some(KeyboardUsage::KeyboardPeriodGreater)
        } else if bytes_eq(name, "KeyboardSlashQuestion".as_bytes()) {
            Some(KeyboardUsage::KeyboardSlashQuestion)
        } else if bytes_eq(name, "KeyboardCapsLock".as_bytes()) {
            Some(KeyboardUsage::KeyboardCapsLock)
        } else if bytes_eq(name, "KeyboardF1".as_bytes()) {
            Some(KeyboardUsage::KeyboardF1)
        } else if bytes_eq(name, "KeyboardF2".as_bytes()) {
            Some(KeyboardUsage::KeyboardF2)
        } else if bytes_eq(name, "KeyboardF3".as_bytes()) {
            Some(KeyboardUsage::KeyboardF3)
        } else if bytes_eq(name, "KeyboardF4".as_bytes()) {
            Some(KeyboardUsage::KeyboardF4)
        } else if bytes_eq(name, "KeyboardF5".as_bytes()) {
            Some(KeyboardUsage::KeyboardF5)
        } else if bytes_eq(name, "KeyboardF6".as_bytes()) {
            Some(KeyboardUsage::KeyboardF6)
        } else if bytes_eq(name, "KeyboardF7".as_bytes()) {
            Some(KeyboardUsage::KeyboardF7)
        } else if bytes_eq(name, "KeyboardF8".as_bytes()) {
            Some(KeyboardUsage::KeyboardF8)
        } else if bytes_eq(name, "KeyboardF9".as_bytes()) {
            Some(KeyboardUsage::KeyboardF9)
        } else if bytes_eq(name, "KeyboardF10".as_bytes()) {
            Some(KeyboardUsage::KeyboardF10)
        } else if bytes_eq(name, "KeyboardF11".as_bytes()) {
            Some(KeyboardUsage::KeyboardF11)
        } else if bytes_eq(name, "KeyboardF12".as_bytes()) {
            Some(KeyboardUsage::KeyboardF12)
        } else if bytes_eq(name, "KeyboardPrintScreen".as_bytes()) {
            Some(KeyboardUsage::KeyboardPrintScreen)
        } else if bytes_eq(name, "KeyboardScrollLock".as_bytes()) {
            Some(KeyboardUsage::KeyboardScrollLock)
        } else if bytes_eq(name, "KeyboardPause".as_bytes()) {
            Some(KeyboardUsage::KeyboardPause)
        } else if bytes_eq(name, "KeyboardInsert".as_bytes()) {
            Some(KeyboardUsage::KeyboardInsert)
        } else if bytes_eq(name, "KeyboardHome".as_bytes()) {
            Some(KeyboardUsage::KeyboardHome)
        } else if bytes_eq(name, "KeyboardPageUp".as_bytes()) {
            Some(KeyboardUsage::KeyboardPageUp)
        } else if bytes_eq(name, "KeyboardDelete".as_bytes()) {
            Some(KeyboardUsage::KeyboardDelete)
        } else if bytes_eq(name, "KeyboardEnd".as_bytes()) {
            Some(KeyboardUsage::KeyboardEnd)
        } else if bytes_eq(name, "KeyboardPageDown".as_bytes()) {
            Some(KeyboardUsage::KeyboardPageDown)
        } else if bytes_eq(name, "KeyboardRightArrow".as_bytes()) {
            Some(KeyboardUsage::KeyboardRightArrow)
        } else if bytes_eq(name, "KeyboardLeftArrow".as_bytes()) {
            Some(KeyboardUsage::KeyboardLeftArrow)
        } else if bytes_eq(name, "KeyboardDownArrow".as_bytes()) {
            Some(KeyboardUsage::KeyboardDownArrow)
        } else if bytes_eq(name, "KeyboardUpArrow".as_bytes()) {
            Some(KeyboardUsage::KeyboardUpArrow)
        } else if bytes_eq(name, "KeypadNumLock".as_bytes()) {
            Some(KeyboardUsage::KeypadNumLock)
        } else if bytes_eq(name, "KeypadDivide".as_bytes()) {
            Some(KeyboardUsage::KeypadDivide)
        } else if bytes_eq(name, "KeypadMultiply".as_bytes()) {
            Some(KeyboardUsage::KeypadMultiply)
        } else if bytes_eq(name, "KeypadMinus".as_bytes()) {
            Some(KeyboardUsage::KeypadMinus)
        } else if bytes_eq(name, "KeypadPlus".as_bytes()) {
            Some(KeyboardUsage::KeypadPlus)
        } else if bytes_eq(name, "KeypadEnter".as_bytes()) {
            Some(KeyboardUsage::KeypadEnter)
        } else if bytes_eq(name, "Keypad1End".as_bytes()) {
            Some(KeyboardUsage::Keypad1End)
        } else if bytes_eq(name, "Keypad2DownArrow".as_bytes()) {
            Some(KeyboardUsage::Keypad2DownArrow)
        } else if bytes_eq(name, "Keypad3PageDown".as_bytes()) {
            Some(KeyboardUsage::Keypad3PageDown)
        } else if bytes_eq(name, "Keypad4LeftArrow".as_bytes()) {
            Some(KeyboardUsage::Keypad4LeftArrow)
        } else if bytes_eq(name, "Keypad5".as_bytes()) {
            Some(KeyboardUsage::Keypad5)
        } else if bytes_eq(name, "Keypad6RightArrow".as_bytes()) {
            Some(KeyboardUsage::Keypad6RightArrow)
        } else if bytes_eq(name, "Keypad7Home".as_bytes()) {
            Some(KeyboardUsage::Keypad7Home)
        } else if bytes_eq(name, "Keypad8UpArrow".as_bytes()) {
            Some(KeyboardUsage::Keypad8UpArrow)
        } else if bytes_eq(name, "Keypad9PageUp".as_bytes()) {
            Some(KeyboardUsage::Keypad9PageUp)
        } else if bytes_eq(name, "Keypad0Insert".as_bytes()) {
            Some(KeyboardUsage::Keypad0Insert)
        } else if bytes_eq(name, "KeypadPeriodDelete".as_bytes()) {
            Some(KeyboardUsage::KeypadPeriodDelete)
        } else if bytes_eq(name, "KeyboardNonUSSlash".as_bytes()) {
            Some(KeyboardUsage::KeyboardNonUSSlash)
        } else if bytes_eq(name, "KeyboardApplication".as_bytes()) {
            Some(KeyboardUsage::KeyboardApplication)
        } else if bytes_eq(name, "KeyboardPower".as_bytes()) {
            Some(KeyboardUsage::KeyboardPower)
        } else if bytes_eq(name, "KeypadEqual".as_bytes()) {
            Some(KeyboardUsage::KeypadEqual)
        } else if bytes_eq(name, "KeyboardF13".as_bytes()) {
            Some(KeyboardUsage::KeyboardF13)
        } else if bytes_eq(name, "KeyboardF14".as_bytes()) {
            Some(KeyboardUsage::KeyboardF14)
        } else if bytes_eq(name, "KeyboardF15".as_bytes()) {
            Some(KeyboardUsage::KeyboardF15)
        } else if bytes_eq(name, "KeyboardF16".as_bytes()) {
            Some(KeyboardUsage::KeyboardF16)
        } else if bytes_eq(name, "KeyboardF17".as_bytes()) {
            Some(KeyboardUsage::KeyboardF17)
        } else if bytes_eq(name, "KeyboardF18".as_bytes()) {
            Some(KeyboardUsage::KeyboardF18)
        } else if bytes_eq(name, "KeyboardF19".as_bytes()) {
            Some(KeyboardUsage::KeyboardF19)
        } else if bytes_eq(name, "KeyboardF20".as_bytes()) {
            Some(KeyboardUsage::KeyboardF20)
        } else if bytes_eq(name, "KeyboardF21".as_bytes()) {
            Some(KeyboardUsage::KeyboardF21)
        } else if bytes_eq(name, "KeyboardF22".as_bytes()) {
            Some(KeyboardUsage::KeyboardF22)
        } else if bytes_eq(name, "KeyboardF23".as_bytes()) {
            Some(KeyboardUsage::KeyboardF23)
        } else if bytes_eq(name, "KeyboardF24".as_bytes()) {
            Some(KeyboardUsage::KeyboardF24)
        } else if bytes_eq(name, "KeyboardExecute".as_bytes()) {
            Some(KeyboardUsage::KeyboardExecute)
        } else if bytes_eq(name, "KeyboardHelp".as_bytes()) {
            Some(KeyboardUsage::KeyboardHelp)
        } else if bytes_eq(name, "KeyboardMenu".as_bytes()) {
            Some(KeyboardUsage::KeyboardMenu)
        } else if bytes_eq(name, "KeyboardSelect".as_bytes()) {
            Some(KeyboardUsage::KeyboardSelect)
        } else if bytes_eq(name, "KeyboardStop".as_bytes()) {
            Some(KeyboardUsage::KeyboardStop)
        } else if bytes_eq(name, "KeyboardAgain".as_bytes()) {
            Some(KeyboardUsage::KeyboardAgain)
        } else if bytes_eq(name, "KeyboardUndo".as_bytes()) {
            Some(KeyboardUsage::KeyboardUndo)
        } else if bytes_eq(name, "KeyboardCut".as_bytes()) {
            Some(KeyboardUsage::KeyboardCut)
        } else if bytes_eq(name, "KeyboardCopy".as_bytes()) {
            Some(KeyboardUsage::KeyboardCopy)
        } else if bytes_eq(name, "KeyboardPaste".as_bytes()) {
            Some(KeyboardUsage::KeyboardPaste)
        } else if bytes_eq(name, "KeyboardFind".as_bytes()) {
            Some(KeyboardUsage::KeyboardFind)
        } else if bytes_eq(name, "KeyboardMute".as_bytes()) {
            Some(KeyboardUsage::KeyboardMute)
        } else if bytes_eq(name, "KeyboardVolumeUp".as_bytes()) {
            Some(KeyboardUsage::KeyboardVolumeUp)
        } else if bytes_eq(name, "KeyboardVolumeDown".as_bytes()) {
            Some(KeyboardUsage::KeyboardVolumeDown)
        } else if bytes_eq(name, "KeyboardLockingCapsLock".as_bytes()) {
            Some(KeyboardUsage::KeyboardLockingCapsLock)
        } else if bytes_eq(name, "KeyboardLockingNumLock".as_bytes()) {
            Some(KeyboardUsage::KeyboardLockingNumLock)
        } else if bytes_eq(name, "KeyboardLockingScrollLock".as_bytes()) {
            Some(KeyboardUsage::KeyboardLockingScrollLock)
        } else if bytes_eq(name, "KeypadComma".as_bytes()) {
            Some(KeyboardUsage::KeypadComma)
        } else if bytes_eq(name, "KeypadEqualSign".as_bytes()) {
            Some(KeyboardUsage::KeypadEqualSign)
        } else if bytes_eq(name, "KeyboardInternational1".as_bytes()) {
            Some(KeyboardUsage::KeyboardInternational1)
        } else if bytes_eq(name, "KeyboardInternational2".as_bytes()) {
            Some(KeyboardUsage::KeyboardInternational2)
        } else if bytes_eq(name, "KeyboardInternational3".as_bytes()) {
            Some(KeyboardUsage::KeyboardInternational3)
        } else if bytes_eq(name, "KeyboardInternational4".as_bytes()) {
            Some(KeyboardUsage::KeyboardInternational4)
        } else if bytes_eq(name, "KeyboardInternational5".as_bytes()) {
            Some(KeyboardUsage::KeyboardInternational5)
        } else if bytes_eq(name, "KeyboardInternational6".as_bytes()) {
            Some(KeyboardUsage::KeyboardInternational6)
        } else if bytes_eq(name, "KeyboardInternational7".as_bytes()) {
            Some(KeyboardUsage::KeyboardInternational7)
        } else if bytes_eq(name, "KeyboardInternational8".as_bytes()) {
            Some(KeyboardUsage::KeyboardInternational8)
        } else if bytes_eq(name, "KeyboardInternational9".as_bytes()) {
            Some(KeyboardUsage::KeyboardInternational9)
        } else if bytes_eq(name, "KeyboardLANG1".as_bytes()) {
            Some(KeyboardUsage::KeyboardLANG1)
        } else if bytes_eq(name, "KeyboardLANG2".as_bytes()) {
            Some(KeyboardUsage::KeyboardLANG2)
        } else if bytes_eq(name, "KeyboardLANG3".as_bytes()) {
            Some(KeyboardUsage::KeyboardLANG3)
        } else if bytes_eq(name, "KeyboardLANG4".as_bytes()) {
            Some(KeyboardUsage::KeyboardLANG4)
        } else if bytes_eq(name, "KeyboardLANG5".as_bytes()) {
            Some(KeyboardUsage::KeyboardLANG5)
        } else if bytes_eq(name, "KeyboardLANG6".as_bytes()) {
            Some(KeyboardUsage::KeyboardLANG6)
        } else if bytes_eq(name, "KeyboardLANG7".as_bytes()) {
            Some(KeyboardUsage::KeyboardLANG7)
        } else if bytes_eq(name, "KeyboardLANG8".as_bytes()) {
            Some(KeyboardUsage::KeyboardLANG8)
        } else if bytes_eq(name, "KeyboardLANG9".as_bytes()) {
            Some(KeyboardUsage::KeyboardLANG9)
        } else if bytes_eq(name, "KeyboardAlternateErase".as_bytes()) {
            Some(KeyboardUsage::KeyboardAlternateErase)
        } else if bytes_eq(name, "KeyboardSysReqAttention".as_bytes()) {
            Some(KeyboardUsage::KeyboardSysReqAttention)
        } else if bytes_eq(name, "KeyboardCancel".as_bytes()) {
            Some(KeyboardUsage::KeyboardCancel)
        } else if bytes_eq(name, "KeyboardClear".as_bytes()) {
            Some(KeyboardUsage::KeyboardClear)
        } else if bytes_eq(name, "KeyboardPrior".as_bytes()) {
            Some(KeyboardUsage::KeyboardPrior)
        } else if bytes_eq(name, "KeyboardReturn".as_bytes()) {
            Some(KeyboardUsage::KeyboardReturn)
        } else if bytes_eq(name, "KeyboardSeparator".as_bytes()) {
            Some(KeyboardUsage::KeyboardSeparator)
        } else if bytes_eq(name, "KeyboardOut".as_bytes()) {
            Some(KeyboardUsage::KeyboardOut)
        } else if bytes_eq(name, "KeyboardOper".as_bytes()) {
            Some(KeyboardUsage::KeyboardOper)
        } else if bytes_eq(name, "KeyboardClearAgain".as_bytes()) {
            Some(KeyboardUsage::KeyboardClearAgain)
        } else if bytes_eq(name, "KeyboardCrSelProps".as_bytes()) {
            Some(KeyboardUsage::KeyboardCrSelProps)
        } else if bytes_eq(name, "KeyboardExSel".as_bytes()) {
            Some(KeyboardUsage::KeyboardExSel)
        } else if bytes_eq(name, "Keypad00".as_bytes()) {
            Some(KeyboardUsage::Keypad00)
        } else if bytes_eq(name, "Keypad000".as_bytes()) {
            Some(KeyboardUsage::Keypad000)
        } else if bytes_eq(name, "ThousandsSeparator".as_bytes()) {
            Some(KeyboardUsage::ThousandsSeparator)
        } else if bytes_eq(name, "DecimalSeparator".as_bytes()) {
            Some(KeyboardUsage::DecimalSeparator)
        } else if bytes_eq(name, "CurrencyUnit".as_bytes()) {
            Some(KeyboardUsage::CurrencyUnit)
        } else if bytes_eq(name, "CurrencySubunit".as_bytes()) {
            Some(KeyboardUsage::CurrencySubunit)
        } else if bytes_eq(name, "KeypadOpenParens".as_bytes()) {
            Some(KeyboardUsage::KeypadOpenParens)
        } else if bytes_eq(name, "KeypadCloseParens".as_bytes()) {
            Some(KeyboardUsage::KeypadCloseParens)
        } else if bytes_eq(name, "KeypadOpenBrace".as_bytes()) {
            Some(KeyboardUsage::KeypadOpenBrace)
        } else if bytes_eq(name, "KeypadCloseBrace".as_bytes()) {
            Some(KeyboardUsage::KeypadCloseBrace)
        } else if bytes_eq(name, "KeypadTab".as_bytes()) {
            Some(KeyboardUsage::KeypadTab)
        } else if bytes_eq(name, "KeypadBackspace".as_bytes()) {
            Some(KeyboardUsage::KeypadBackspace)
        } else if bytes_eq(name, "KeypadA".as_bytes()) {
            Some(KeyboardUsage::KeypadA)
        } else if bytes_eq(name, "KeypadB".as_bytes()) {
            Some(KeyboardUsage::KeypadB)
        } else if bytes_eq(name, "KeypadC".as_bytes()) {
            Some(KeyboardUsage::KeypadC)
        } else if bytes_eq(name, "KeypadD".as_bytes()) {
            Some(KeyboardUsage::KeypadD)
        } else if bytes_eq(name, "KeypadE".as_bytes()) {
            Some(KeyboardUsage::KeypadE)
        } else if bytes_eq(name, "KeypadF".as_bytes()) {
            Some(KeyboardUsage::KeypadF)
        } else if bytes_eq(name, "KeypadBitwiseXor".as_bytes()) {
            Some(KeyboardUsage::KeypadBitwiseXor)
        } else if bytes_eq(name, "KeypadLogicalXor".as_bytes()) {
            Some(KeyboardUsage::KeypadLogicalXor)
        } else if bytes_eq(name, "KeypadModulo".as_bytes()) {
            Some(KeyboardUsage::KeypadModulo)
        } else if bytes_eq(name, "KeypadLeftShift".as_bytes()) {
            Some(KeyboardUsage::KeypadLeftShift)
        } else if bytes_eq(name, "KeypadRightShift".as_bytes()) {
            Some(KeyboardUsage::KeypadRightShift)
        } else if bytes_eq(name, "KeypadBitwiseAnd".as_bytes()) {
            Some(KeyboardUsage::KeypadBitwiseAnd)
        } else if bytes_eq(name, "KeypadLogicalAnd".as_bytes()) {
            Some(KeyboardUsage::KeypadLogicalAnd)
        } else if bytes_eq(name, "KeypadBitwiseOr".as_bytes()) {
            Some(KeyboardUsage::KeypadBitwiseOr)
        } else if bytes_eq(name, "KeypadLogicalOr".as_bytes()) {
            Some(KeyboardUsage::KeypadLogicalOr)
        } else if bytes_eq(name, "KeypadColon".as_bytes()) {
            Some(KeyboardUsage::KeypadColon)
        } else if bytes_eq(name, "KeypadHash".as_bytes()) {
            Some(KeyboardUsage::KeypadHash)
        } else if bytes_eq(name, "KeypadSpace".as_bytes()) {
            Some(KeyboardUsage::KeypadSpace)
        } else if bytes_eq(name, "KeypadAt".as_bytes()) {
            Some(KeyboardUsage::KeypadAt)
        } else if bytes_eq(name, "KeypadExclamation".as_bytes()) {
            Some(KeyboardUsage::KeypadExclamation)
        } else if bytes_eq(name, "KeypadMemoryStore".as_bytes()) {
            Some(KeyboardUsage::KeypadMemoryStore)
        } else if bytes_eq(name, "KeypadMemoryRecall".as_bytes()) {
            Some(KeyboardUsage::KeypadMemoryRecall)
        } else if bytes_eq(name, "KeypadMemoryClear".as_bytes()) {
            Some(KeyboardUsage::KeypadMemoryClear)
        } else if bytes_eq(name, "KeypadMemoryAdd".as_bytes()) {
            Some(KeyboardUsage::KeypadMemoryAdd)
        } else if bytes_eq(name, "KeypadMemorySubtract".as_bytes()) {
            Some(KeyboardUsage::KeypadMemorySubtract)
        } else if bytes_eq(name, "KeypadMemoryMultiply".as_bytes()) {
            Some(KeyboardUsage::KeypadMemoryMultiply)
        } else if bytes_eq(name, "KeypadMemoryDivide".as_bytes()) {
            Some(KeyboardUsage::KeypadMemoryDivide)
        } else if bytes_eq(name, "KeypadPositiveNegative".as_bytes()) {
            Some(KeyboardUsage::KeypadPositiveNegative)
        } else if bytes_eq(name, "KeypadClear".as_bytes()) {
            Some(KeyboardUsage::KeypadClear)
        } else if bytes_eq(name, "KeypadClearEntry".as_bytes()) {
            Some(KeyboardUsage::KeypadClearEntry)
        } else if bytes_eq(name, "KeypadBinary".as_bytes()) {
            Some(KeyboardUsage::KeypadBinary)
        } else if bytes_eq(name, "KeypadOctal".as_bytes()) {
            Some(KeyboardUsage::KeypadOctal)
        } else if bytes_eq(name, "KeypadDecimal".as_bytes()) {
            Some(KeyboardUsage::KeypadDecimal)
        } else if bytes_eq(name, "KeypadHexadecimal".as_bytes()) {
            Some(KeyboardUsage::KeypadHexadecimal)
        } else if bytes_eq(name, "KeyboardLeftControl".as_bytes()) {
            Some(KeyboardUsage::KeyboardLeftControl)
        } else if bytes_eq(name, "KeyboardLeftShift".as_bytes()) {
            Some(KeyboardUsage::KeyboardLeftShift)
        } else if bytes_eq(name, "KeyboardLeftAlt".as_bytes()) {
            Some(KeyboardUsage::KeyboardLeftAlt)
        } else if bytes_eq(name, "KeyboardLeftGUI".as_bytes()) {
            Some(KeyboardUsage::KeyboardLeftGUI)
        } else if bytes_eq(name, "KeyboardRightControl".as_bytes()) {
            Some(KeyboardUsage::KeyboardRightControl)
        } else if bytes_eq(name, "KeyboardRightShift".as_bytes()) {
            Some(KeyboardUsage::KeyboardRightShift)
        } else if bytes_eq(name, "KeyboardRightAlt".as_bytes()) {
            Some(KeyboardUsage::KeyboardRightAlt)
        } else if bytes_eq(name, "KeyboardRightGUI".as_bytes()) {
            Some(KeyboardUsage::KeyboardRightGUI)
        } else if bytes_eq(name, "Reserved".as_bytes()) {
            Some(KeyboardUsage::Reserved)
        } else if bytes_eq(name, "KeyboardRaise".as_bytes()) {
            Some(KeyboardUsage::KeyboardRaise)
        } else if bytes_eq(name, "KeyboardLower".as_bytes()) {
            Some(KeyboardUsage::KeyboardLower)
        } else if bytes_eq(name, "KeyboardEmpty".as_bytes()) {
            Some(KeyboardUsage::KeyboardEmpty)
        } else {
            None
        }
    }
}

/// Decoding inverts encoding on every symbolic code: each variant's fixed
/// byte decodes back to that variant, so the byte table is a bijection over
/// the assigned bytes.
pub proof fn lemma_byte_round_trip_variant(c: KeyboardUsage)
    ensures
        usage_of_byte(byte_of(c)) == c,
{
    match c {
        KeyboardUsage::KeyboardErrorRollOver => {
            assert(usage_of_byte(byte_of(KeyboardUsage::KeyboardErrorRollOver)) == KeyboardUsage::KeyboardErrorRollOver);
        },
        KeyboardUsage::KeyboardPOSTFail => {
            assert(usage_of_byte(byte_of(KeyboardUsage::KeyboardPOSTFail)) == KeyboardUsage::KeyboardPOSTFail);
        },
        KeyboardUsage::KeyboardErrorUndefined => {
            assert(usage_of_byte(byte_of(KeyboardUsage::KeyboardErrorUndefined)) == KeyboardUsage::KeyboardErrorUndefined);
        },
        KeyboardUsage::KeyboardAa => {
            assert(usage_of_byte(byte_of(KeyboardUsage::KeyboardAa)) == KeyboardUsage::KeyboardAa);
        },
        KeyboardUsage::KeyboardBb => {
            assert(usage_of_byte(byte_of(KeyboardUsage::KeyboardBb)) == KeyboardUsage::KeyboardBb);
        },
        KeyboardUsage::KeyboardCc => {
            assert(usage_of_byte(byte_of(KeyboardUsage::KeyboardCc)) == KeyboardUsage::KeyboardCc);
        },
        KeyboardUsage::KeyboardDd => {
            assert(usage_of_byte(byte_of(KeyboardUsage::KeyboardDd)) == KeyboardUsage::KeyboardDd);
        },
        KeyboardUsage::KeyboardEe => {
            assert(usage_of_byte(byte_of(KeyboardUsage::KeyboardEe)) == KeyboardUsage::KeyboardEe);
        },
        KeyboardUsage::KeyboardFf => {
            assert(usage_of_byte(byte_of(KeyboardUsage::KeyboardFf)) == KeyboardUsage::KeyboardFf);
        },
        KeyboardUsage::KeyboardGg => {
            assert(usage_of_byte(byte_of(KeyboardUsage::KeyboardGg)) == KeyboardUsage::KeyboardGg);
        },
        KeyboardUsage::KeyboardHh => {
            assert(usage_of_byte(byte_of(KeyboardUsage::KeyboardHh)) == KeyboardUsage::KeyboardHh);
        },
        KeyboardUsage::KeyboardIi => {
            assert(usage_of_byte(byte_of(KeyboardUsage::KeyboardIi)) == KeyboardUsage::KeyboardIi);
        },
        KeyboardUsage::KeyboardJj => {
            assert(usage_of_byte(byte_of(KeyboardUsage::KeyboardJj)) == KeyboardUsage::KeyboardJj);
        },
        KeyboardUsage::KeyboardKk => {
            assert(usage_of_byte(byte_of(KeyboardUsage::KeyboardKk)) == KeyboardUsage::KeyboardKk);
        },
        KeyboardUsage::KeyboardLl => {
            assert(usage_of_byte(byte_of(KeyboardUsage::KeyboardLl)) == KeyboardUsage::KeyboardLl);
        },
        KeyboardUsage::KeyboardMm => {
            assert(usage_of_byte(byte_of(KeyboardUsage::KeyboardMm)) == KeyboardUsage::KeyboardMm);
        },
        KeyboardUsage::KeyboardNn => {
            assert(usage_of_byte(byte_of(KeyboardUsage::KeyboardNn)) == KeyboardUsage::KeyboardNn);
        },
        KeyboardUsage::KeyboardOo => {
            assert(usage_of_byte(byte_of(KeyboardUsage::KeyboardOo)) == KeyboardUsage::KeyboardOo);
        },
        KeyboardUsage::KeyboardPp => {
            assert(usage_of_byte(byte_of(KeyboardUsage::KeyboardPp)) == KeyboardUsage::KeyboardPp);
        },
        KeyboardUsage::KeyboardQq => {
            assert(usage_of_byte(byte_of(KeyboardUsage::KeyboardQq)) == KeyboardUsage::KeyboardQq);
        },
        KeyboardUsage::KeyboardRr => {
            assert(usage_of_byte(byte_of(KeyboardUsage::KeyboardRr)) == KeyboardUsage::KeyboardRr);
        },
        KeyboardUsage::KeyboardSs => {
            assert(usage_of_byte(byte_of(KeyboardUsage::KeyboardSs)) == KeyboardUsage::KeyboardSs);
        },
        KeyboardUsage::KeyboardTt => {
            assert(usage_of_byte(byte_of(KeyboardUsage::KeyboardTt)) == KeyboardUsage::KeyboardTt);
        },
        KeyboardUsage::KeyboardUu => {
            assert(usage_of_byte(byte_of(KeyboardUsage::KeyboardUu)) == KeyboardUsage::KeyboardUu);
        },
        KeyboardUsage::KeyboardVv => {
            assert(usage_of_byte(byte_of(KeyboardUsage::KeyboardVv)) == KeyboardUsage::KeyboardVv);
        },
        KeyboardUsage::KeyboardWw => {
            assert(usage_of_byte(byte_of(KeyboardUsage::KeyboardWw)) == KeyboardUsage::KeyboardWw);
        },
        KeyboardUsage::KeyboardXx => {
            assert(usage_of_byte(byte_of(KeyboardUsage::KeyboardXx)) == KeyboardUsage::KeyboardXx);
        },
        KeyboardUsage::KeyboardYy => {
            assert(usage_of_byte(byte_of(KeyboardUsage::KeyboardYy)) == KeyboardUsage::KeyboardYy);
        },
        KeyboardUsage::KeyboardZz => {
            assert(usage_of_byte(byte_of(KeyboardUsage::KeyboardZz)) == KeyboardUsage::KeyboardZz);
        },
        KeyboardUsage::Keyboard1Exclamation => {
            assert(usage_of_byte(byte_of(KeyboardUsage::Keyboard1Exclamation)) == KeyboardUsage::Keyboard1Exclamation);
        },
        KeyboardUsage::Keyboard2At => {
            assert(usage_of_byte(byte_of(KeyboardUsage::Keyboard2At)) == KeyboardUsage::Keyboard2At);
        },
        KeyboardUsage::Keyboard3Hash => {
            assert(usage_of_byte(byte_of(KeyboardUsage::Keyboard3Hash)) == KeyboardUsage::Keyboard3Hash);
        },
        KeyboardUsage::Keyboard4Dollar => {
            assert(usage_of_byte(byte_of(KeyboardUsage::Keyboard4Dollar)) == KeyboardUsage::Keyboard4Dollar);
        },
        KeyboardUsage::Keyboard5Percent => {
            assert(usage_of_byte(byte_of(KeyboardUsage::Keyboard5Percent)) == KeyboardUsage::Keyboard5Percent);
        },
        KeyboardUsage::Keyboard6Caret => {
            assert(usage_of_byte(byte_of(KeyboardUsage::Keyboard6Caret)) == KeyboardUsage::Keyboard6Caret);
        },
        KeyboardUsage::Keyboard7Ampersand => {
            assert(usage_of_byte(byte_of(KeyboardUsage::Keyboard7Ampersand)) == KeyboardUsage::Keyboard7Ampersand);
        },
        KeyboardUsage::Keyboard8Asterisk => {
            assert(usage_of_byte(byte_of(KeyboardUsage::Keyboard8Asterisk)) == KeyboardUsage::Keyboard8Asterisk);
        },
        KeyboardUsage::Keyboard9OpenParens => {
            assert(usage_of_byte(byte_of(KeyboardUsage::Keyboard9OpenParens)) == KeyboardUsage::Keyboard9OpenParens);
        },
        KeyboardUsage::Keyboard0CloseParens => {
            assert(usage_of_byte(byte_of(KeyboardUsage::Keyboard0CloseParens)) == KeyboardUsage::Keyboard0CloseParens);
        },
        KeyboardUsage::KeyboardEnter => {
            assert(usage_of_byte(byte_of(KeyboardUsage::KeyboardEnter)) == KeyboardUsage::KeyboardEnter);
        },
        KeyboardUsage::KeyboardEscape => {
            assert(usage_of_byte(byte_of(KeyboardUsage::KeyboardEscape)) == KeyboardUsage::KeyboardEscape);
        },
        KeyboardUsage::KeyboardBackspace => {
            assert(usage_of_byte(byte_of(KeyboardUsage::KeyboardBackspace)) == KeyboardUsage::KeyboardBackspace);
        },
        KeyboardUsage::KeyboardTab => {
            assert(usage_of_byte(byte_of(KeyboardUsage::KeyboardTab)) == KeyboardUsage::KeyboardTab);
        },
        KeyboardUsage::KeyboardSpacebar => {
            assert(usage_of_byte(byte_of(KeyboardUsage::KeyboardSpacebar)) == KeyboardUsage::KeyboardSpacebar);
        },
        KeyboardUsage::KeyboardDashUnderscore => {
            assert(usage_of_byte(byte_of(KeyboardUsage::KeyboardDashUnderscore)) == KeyboardUsage::KeyboardDashUnderscore);
        },
        KeyboardUsage::KeyboardEqualPlus => {
            assert(usage_of_byte(byte_of(KeyboardUsage::KeyboardEqualPlus)) == KeyboardUsage::KeyboardEqualPlus);
        },
        KeyboardUsage::KeyboardOpenBracketBrace => {
            assert(usage_of_byte(byte_of(KeyboardUsage::KeyboardOpenBracketBrace)) == KeyboardUsage::KeyboardOpenBracketBrace);
        },
        KeyboardUsage::KeyboardCloseBracketBrace => {
            assert(usage_of_byte(byte_of(KeyboardUsage::KeyboardCloseBracketBrace)) == KeyboardUsage::KeyboardCloseBracketBrace);
        },
        KeyboardUsage::KeyboardBackslashBar => {
            assert(usage_of_byte(byte_of(KeyboardUsage::KeyboardBackslashBar)) == KeyboardUsage::KeyboardBackslashBar);
        },
        KeyboardUsage::KeyboardNonUSHash => {
            assert(usage_of_byte(byte_of(KeyboardUsage::KeyboardNonUSHash)) == KeyboardUsage::KeyboardNonUSHash);
        },
        KeyboardUsage::KeyboardSemiColon => {
            assert(usage_of_byte(byte_of(KeyboardUsage::KeyboardSemiColon)) == KeyboardUsage::KeyboardSemiColon);
        },
        KeyboardUsage::KeyboardSingleDoubleQuote => {
            assert(usage_of_byte(byte_of(KeyboardUsage::KeyboardSingleDoubleQuote)) == KeyboardUsage::KeyboardSingleDoubleQuote);
        },
        KeyboardUsage::KeyboardBacktickTilde => {
            assert(usage_of_byte(byte_of(KeyboardUsage::KeyboardBacktickTilde)) == KeyboardUsage::KeyboardBacktickTilde);
        },
        KeyboardUsage::KeyboardCommaLess => {
            assert(usage_of_byte(byte_of(KeyboardUsage::KeyboardCommaLess)) == KeyboardUsage::KeyboardCommaLess);
        },
        KeyboardUsage::KeyboardPeriodGreater => {
            assert(usage_of_byte(byte_of(KeyboardUsage::KeyboardPeriodGreater)) == KeyboardUsage::KeyboardPeriodGreater);
        },
        KeyboardUsage::KeyboardSlashQuestion => {
            assert(usage_of_byte(byte_of(KeyboardUsage::KeyboardSlashQuestion)) == KeyboardUsage::KeyboardSlashQuestion);
        },
        KeyboardUsage::KeyboardCapsLock => {
            assert(usage_of_byte(byte_of(KeyboardUsage::KeyboardCapsLock)) == KeyboardUsage::KeyboardCapsLock);
        },
        KeyboardUsage::KeyboardF1 => {
            assert(usage_of_byte(byte_of(KeyboardUsage::KeyboardF1)) == KeyboardUsage::KeyboardF1);
        },
        KeyboardUsage::KeyboardF2 => {
            assert(usage_of_byte(byte_of(KeyboardUsage::KeyboardF2)) == KeyboardUsage::KeyboardF2);
        },
        KeyboardUsage::KeyboardF3 => {
            assert(usage_of_byte(byte_of(KeyboardUsage::KeyboardF3)) == KeyboardUsage::KeyboardF3);
        },
        KeyboardUsage::KeyboardF4 => {
            assert(usage_of_byte(byte_of(KeyboardUsage::KeyboardF4)) == KeyboardUsage::KeyboardF4);
        },
        KeyboardUsage::KeyboardF5 => {
            assert(usage_of_byte(byte_of(KeyboardUsage::KeyboardF5)) == KeyboardUsage::KeyboardF5);
        },
        KeyboardUsage::KeyboardF6 => {
            assert(usage_of_byte(byte_of(KeyboardUsage::KeyboardF6)) == KeyboardUsage::KeyboardF6);
        },
        KeyboardUsage::KeyboardF7 => {
            assert(usage_of_byte(byte_of(KeyboardUsage::KeyboardF7)) == KeyboardUsage::KeyboardF7);
        },
        KeyboardUsage::KeyboardF8 => {
            assert(usage_of_byte(byte_of(KeyboardUsage::KeyboardF8)) == KeyboardUsage::KeyboardF8);
        },
        KeyboardUsage::KeyboardF9 => {
            assert(usage_of_byte(byte_of(KeyboardUsage::KeyboardF9)) == KeyboardUsage::KeyboardF9);
        },
        KeyboardUsage::KeyboardF10 => {
            assert(usage_of_byte(byte_of(KeyboardUsage::KeyboardF10)) == KeyboardUsage::KeyboardF10);
        },
        KeyboardUsage::KeyboardF11 => {
            assert(usage_of_byte(byte_of(KeyboardUsage::KeyboardF11)) == KeyboardUsage::KeyboardF11);
        },
        KeyboardUsage::KeyboardF12 => {
            assert(usage_of_byte(byte_of(KeyboardUsage::KeyboardF12)) == KeyboardUsage::KeyboardF12);
        },
        KeyboardUsage::KeyboardPrintScreen => {
            assert(usage_of_byte(byte_of(KeyboardUsage::KeyboardPrintScreen)) == KeyboardUsage::KeyboardPrintScreen);
        },
        KeyboardUsage::KeyboardScrollLock => {
            assert(usage_of_byte(byte_of(KeyboardUsage::KeyboardScrollLock)) == KeyboardUsage::KeyboardScrollLock);
        },
        KeyboardUsage::KeyboardPause => {
            assert(usage_of_byte(byte_of(KeyboardUsage::KeyboardPause)) == KeyboardUsage::KeyboardPause);
        },
        KeyboardUsage::KeyboardInsert => {
            assert(usage_of_byte(byte_of(KeyboardUsage::KeyboardInsert)) == KeyboardUsage::KeyboardInsert);
        },
        KeyboardUsage::KeyboardHome => {
            assert(usage_of_byte(byte_of(KeyboardUsage::KeyboardHome)) == KeyboardUsage::KeyboardHome);
        },
        KeyboardUsage::KeyboardPageUp => {
            assert(usage_of_byte(byte_of(KeyboardUsage::KeyboardPageUp)) == KeyboardUsage::KeyboardPageUp);
        },
        KeyboardUsage::KeyboardDelete => {
            assert(usage_of_byte(byte_of(KeyboardUsage::KeyboardDelete)) == KeyboardUsage::KeyboardDelete);
        },
        KeyboardUsage::KeyboardEnd => {
            assert(usage_of_byte(byte_of(KeyboardUsage::KeyboardEnd)) == KeyboardUsage::KeyboardEnd);
        },
        KeyboardUsage::KeyboardPageDown => {
            assert(usage_of_byte(byte_of(KeyboardUsage::KeyboardPageDown)) == KeyboardUsage::KeyboardPageDown);
        },
        KeyboardUsage::KeyboardRightArrow => {
            assert(usage_of_byte(byte_of(KeyboardUsage::KeyboardRightArrow)) == KeyboardUsage::KeyboardRightArrow);
        },
        KeyboardUsage::KeyboardLeftArrow => {
            assert(usage_of_byte(byte_of(KeyboardUsage::KeyboardLeftArrow)) == KeyboardUsage::KeyboardLeftArrow);
        },
        KeyboardUsage::KeyboardDownArrow => {
            assert(usage_of_byte(byte_of(KeyboardUsage::KeyboardDownArrow)) == KeyboardUsage::KeyboardDownArrow);
        },
        KeyboardUsage::KeyboardUpArrow => {
            assert(usage_of_byte(byte_of(KeyboardUsage::KeyboardUpArrow)) == KeyboardUsage::KeyboardUpArrow);
        },
        KeyboardUsage::KeypadNumLock => {
            assert(usage_of_byte(byte_of(KeyboardUsage::KeypadNumLock)) == KeyboardUsage::KeypadNumLock);
        },
        KeyboardUsage::KeypadDivide => {
            assert(usage_of_byte(byte_of(KeyboardUsage::KeypadDivide)) == KeyboardUsage::KeypadDivide);
        },
        KeyboardUsage::KeypadMultiply => {
            assert(usage_of_byte(byte_of(KeyboardUsage::KeypadMultiply)) == KeyboardUsage::KeypadMultiply);
        },
        KeyboardUsage::KeypadMinus => {
            assert(usage_of_byte(byte_of(KeyboardUsage::KeypadMinus)) == KeyboardUsage::KeypadMinus);
        },
        KeyboardUsage::KeypadPlus => {
            assert(usage_of_byte(byte_of(KeyboardUsage::KeypadPlus)) == KeyboardUsage::KeypadPlus);
        },
        KeyboardUsage::KeypadEnter => {
            assert(usage_of_byte(byte_of(KeyboardUsage::KeypadEnter)) == KeyboardUsage::KeypadEnter);
        },
        KeyboardUsage::Keypad1End => {
            assert(usage_of_byte(byte_of(KeyboardUsage::Keypad1End)) == KeyboardUsage::Keypad1End);
        },
        KeyboardUsage::Keypad2DownArrow => {
            assert(usage_of_byte(byte_of(KeyboardUsage::Keypad2DownArrow)) == KeyboardUsage::Keypad2DownArrow);
        },
        KeyboardUsage::Keypad3PageDown => {
            assert(usage_of_byte(byte_of(KeyboardUsage::Keypad3PageDown)) == KeyboardUsage::Keypad3PageDown);
        },
        KeyboardUsage::Keypad4LeftArrow => {
            assert(usage_of_byte(byte_of(KeyboardUsage::Keypad4LeftArrow)) == KeyboardUsage::Keypad4LeftArrow);
        },
        KeyboardUsage::Keypad5 => {
            assert(usage_of_byte(byte_of(KeyboardUsage::Keypad5)) == KeyboardUsage::Keypad5);
        },
        KeyboardUsage::Keypad6RightArrow => {
            assert(usage_of_byte(byte_of(KeyboardUsage::Keypad6RightArrow)) == KeyboardUsage::Keypad6RightArrow);
        },
        KeyboardUsage::Keypad7Home => {
            assert(usage_of_byte(byte_of(KeyboardUsage::Keypad7Home)) == KeyboardUsage::Keypad7Home);
        },
        KeyboardUsage::Keypad8UpArrow => {
            assert(usage_of_byte(byte_of(KeyboardUsage::Keypad8UpArrow)) == KeyboardUsage::Keypad8UpArrow);
        },
        KeyboardUsage::Keypad9PageUp => {
            assert(usage_of_byte(byte_of(KeyboardUsage::Keypad9PageUp)) == KeyboardUsage::Keypad9PageUp);
        },
        KeyboardUsage::Keypad0Insert => {
            assert(usage_of_byte(byte_of(KeyboardUsage::Keypad0Insert)) == KeyboardUsage::Keypad0Insert);
        },
        KeyboardUsage::KeypadPeriodDelete => {
            assert(usage_of_byte(byte_of(KeyboardUsage::KeypadPeriodDelete)) == KeyboardUsage::KeypadPeriodDelete);
        },
        KeyboardUsage::KeyboardNonUSSlash => {
            assert(usage_of_byte(byte_of(KeyboardUsage::KeyboardNonUSSlash)) == KeyboardUsage::KeyboardNonUSSlash);
        },
        KeyboardUsage::KeyboardApplication => {
            assert(usage_of_byte(byte_of(KeyboardUsage::KeyboardApplication)) == KeyboardUsage::KeyboardApplication);
        },
        KeyboardUsage::KeyboardPower => {
            assert(usage_of_byte(byte_of(KeyboardUsage::KeyboardPower)) == KeyboardUsage::KeyboardPower);
        },
        KeyboardUsage::KeypadEqual => {
            assert(usage_of_byte(byte_of(KeyboardUsage::KeypadEqual)) == KeyboardUsage::KeypadEqual);
        },
        KeyboardUsage::KeyboardF13 => {
            assert(usage_of_byte(byte_of(KeyboardUsage::KeyboardF13)) == KeyboardUsage::KeyboardF13);
        },
        KeyboardUsage::KeyboardF14 => {
            assert(usage_of_byte(byte_of(KeyboardUsage::KeyboardF14)) == KeyboardUsage::KeyboardF14);
        },
        KeyboardUsage::KeyboardF15 => {
            assert(usage_of_byte(byte_of(KeyboardUsage::KeyboardF15)) == KeyboardUsage::KeyboardF15);
        },
        KeyboardUsage::KeyboardF16 => {
            assert(usage_of_byte(byte_of(KeyboardUsage::KeyboardF16)) == KeyboardUsage::KeyboardF16);
        },
        KeyboardUsage::KeyboardF17 => {
            assert(usage_of_byte(byte_of(KeyboardUsage::KeyboardF17)) == KeyboardUsage::KeyboardF17);
        },
        KeyboardUsage::KeyboardF18 => {
            assert(usage_of_byte(byte_of(KeyboardUsage::KeyboardF18)) == KeyboardUsage::KeyboardF18);
        },
        KeyboardUsage::KeyboardF19 => {
            assert(usage_of_byte(byte_of(KeyboardUsage::KeyboardF19)) == KeyboardUsage::KeyboardF19);
        },
        KeyboardUsage::KeyboardF20 => {
            assert(usage_of_byte(byte_of(KeyboardUsage::KeyboardF20)) == KeyboardUsage::KeyboardF20);
        },
        KeyboardUsage::KeyboardF21 => {
            assert(usage_of_byte(byte_of(KeyboardUsage::KeyboardF21)) == KeyboardUsage::KeyboardF21);
        },
        KeyboardUsage::KeyboardF22 => {
            assert(usage_of_byte(byte_of(KeyboardUsage::KeyboardF22)) == KeyboardUsage::KeyboardF22);
        },
        KeyboardUsage::KeyboardF23 => {
            assert(usage_of_byte(byte_of(KeyboardUsage::KeyboardF23)) == KeyboardUsage::KeyboardF23);
        },
        KeyboardUsage::KeyboardF24 => {
            assert(usage_of_byte(byte_of(KeyboardUsage::KeyboardF24)) == KeyboardUsage::KeyboardF24);
        },
        KeyboardUsage::KeyboardExecute => {
            assert(usage_of_byte(byte_of(KeyboardUsage::KeyboardExecute)) == KeyboardUsage::KeyboardExecute);
        },
        KeyboardUsage::KeyboardHelp => {
            assert(usage_of_byte(byte_of(KeyboardUsage::KeyboardHelp)) == KeyboardUsage::KeyboardHelp);
        },
        KeyboardUsage::KeyboardMenu => {
            assert(usage_of_byte(byte_of(KeyboardUsage::KeyboardMenu)) == KeyboardUsage::KeyboardMenu);
        },
        KeyboardUsage::KeyboardSelect => {
            assert(usage_of_byte(byte_of(KeyboardUsage::KeyboardSelect)) == KeyboardUsage::KeyboardSelect);
        },
        KeyboardUsage::KeyboardStop => {
            assert(usage_of_byte(byte_of(KeyboardUsage::KeyboardStop)) == KeyboardUsage::KeyboardStop);
        },
        KeyboardUsage::KeyboardAgain => {
            assert(usage_of_byte(byte_of(KeyboardUsage::KeyboardAgain)) == KeyboardUsage::KeyboardAgain);
        },
        KeyboardUsage::KeyboardUndo => {
            assert(usage_of_byte(byte_of(KeyboardUsage::KeyboardUndo)) == KeyboardUsage::KeyboardUndo);
        },
        KeyboardUsage::KeyboardCut => {
            assert(usage_of_byte(byte_of(KeyboardUsage::KeyboardCut)) == KeyboardUsage::KeyboardCut);
        },
        KeyboardUsage::KeyboardCopy => {
            assert(usage_of_byte(byte_of(KeyboardUsage::KeyboardCopy)) == KeyboardUsage::KeyboardCopy);
        },
        KeyboardUsage::KeyboardPaste => {
            assert(usage_of_byte(byte_of(KeyboardUsage::KeyboardPaste)) == KeyboardUsage::KeyboardPaste);
        },
        KeyboardUsage::KeyboardFind => {
            assert(usage_of_byte(byte_of(KeyboardUsage::KeyboardFind)) == KeyboardUsage::KeyboardFind);
        },
        KeyboardUsage::KeyboardMute => {
            assert(usage_of_byte(byte_of(KeyboardUsage::KeyboardMute)) == KeyboardUsage::KeyboardMute);
        },
        KeyboardUsage::KeyboardVolumeUp => {
            assert(usage_of_byte(byte_of(KeyboardUsage::KeyboardVolumeUp)) == KeyboardUsage::KeyboardVolumeUp);
        },
        KeyboardUsage::KeyboardVolumeDown => {
            assert(usage_of_byte(byte_of(KeyboardUsage::KeyboardVolumeDown)) == KeyboardUsage::KeyboardVolumeDown);
        },
        KeyboardUsage::KeyboardLockingCapsLock => {
            assert(usage_of_byte(byte_of(KeyboardUsage::KeyboardLockingCapsLock)) == KeyboardUsage::KeyboardLockingCapsLock);
        },
        KeyboardUsage::KeyboardLockingNumLock => {
            assert(usage_of_byte(byte_of(KeyboardUsage::KeyboardLockingNumLock)) == KeyboardUsage::KeyboardLockingNumLock);
        },
        KeyboardUsage::KeyboardLockingScrollLock => {
            assert(usage_of_byte(byte_of(KeyboardUsage::KeyboardLockingScrollLock)) == KeyboardUsage::KeyboardLockingScrollLock);
        },
        KeyboardUsage::KeypadComma => {
            assert(usage_of_byte(byte_of(KeyboardUsage::KeypadComma)) == KeyboardUsage::KeypadComma);
        },
        KeyboardUsage::KeypadEqualSign => {
            assert(usage_of_byte(byte_of(KeyboardUsage::KeypadEqualSign)) == KeyboardUsage::KeypadEqualSign);
        },
        KeyboardUsage::KeyboardInternational1 => {
            assert(usage_of_byte(byte_of(KeyboardUsage::KeyboardInternational1)) == KeyboardUsage::KeyboardInternational1);
        },
        KeyboardUsage::KeyboardInternational2 => {
            assert(usage_of_byte(byte_of(KeyboardUsage::KeyboardInternational2)) == KeyboardUsage::KeyboardInternational2);
        },
        KeyboardUsage::KeyboardInternational3 => {
            assert(usage_of_byte(byte_of(KeyboardUsage::KeyboardInternational3)) == KeyboardUsage::KeyboardInternational3);
        },
        KeyboardUsage::KeyboardInternational4 => {
            assert(usage_of_byte(byte_of(KeyboardUsage::KeyboardInternational4)) == KeyboardUsage::KeyboardInternational4);
        },
        KeyboardUsage::KeyboardInternational5 => {
            assert(usage_of_byte(byte_of(KeyboardUsage::KeyboardInternational5)) == KeyboardUsage::KeyboardInternational5);
        },
        KeyboardUsage::KeyboardInternational6 => {
            assert(usage_of_byte(byte_of(KeyboardUsage::KeyboardInternational6)) == KeyboardUsage::KeyboardInternational6);
        },
        KeyboardUsage::KeyboardInternational7 => {
            assert(usage_of_byte(byte_of(KeyboardUsage::KeyboardInternational7)) == KeyboardUsage::KeyboardInternational7);
        },
        KeyboardUsage::KeyboardInternational8 => {
            assert(usage_of_byte(byte_of(KeyboardUsage::KeyboardInternational8)) == KeyboardUsage::KeyboardInternational8);
        },
        KeyboardUsage::KeyboardInternational9 => {
            assert(usage_of_byte(byte_of(KeyboardUsage::KeyboardInternational9)) == KeyboardUsage::KeyboardInternational9);
        },
        KeyboardUsage::KeyboardLANG1 => {
            assert(usage_of_byte(byte_of(KeyboardUsage::KeyboardLANG1)) == KeyboardUsage::KeyboardLANG1);
        },
        KeyboardUsage::KeyboardLANG2 => {
            assert(usage_of_byte(byte_of(KeyboardUsage::KeyboardLANG2)) == KeyboardUsage::KeyboardLANG2);
        },
        KeyboardUsage::KeyboardLANG3 => {
            assert(usage_of_byte(byte_of(KeyboardUsage::KeyboardLANG3)) == KeyboardUsage::KeyboardLANG3);
        },
        KeyboardUsage::KeyboardLANG4 => {
            assert(usage_of_byte(byte_of(KeyboardUsage::KeyboardLANG4)) == KeyboardUsage::KeyboardLANG4);
        },
        KeyboardUsage::KeyboardLANG5 => {
            assert(usage_of_byte(byte_of(KeyboardUsage::KeyboardLANG5)) == KeyboardUsage::KeyboardLANG5);
        },
        KeyboardUsage::KeyboardLANG6 => {
            assert(usage_of_byte(byte_of(KeyboardUsage::KeyboardLANG6)) == KeyboardUsage::KeyboardLANG6);
        },
        KeyboardUsage::KeyboardLANG7 => {
            assert(usage_of_byte(byte_of(KeyboardUsage::KeyboardLANG7)) == KeyboardUsage::KeyboardLANG7);
        },
        KeyboardUsage::KeyboardLANG8 => {
            assert(usage_of_byte(byte_of(KeyboardUsage::KeyboardLANG8)) == KeyboardUsage::KeyboardLANG8);
        },
        KeyboardUsage::KeyboardLANG9 => {
            assert(usage_of_byte(byte_of(KeyboardUsage::KeyboardLANG9)) == KeyboardUsage::KeyboardLANG9);
        },
        KeyboardUsage::KeyboardAlternateErase => {
            assert(usage_of_byte(byte_of(KeyboardUsage::KeyboardAlternateErase)) == KeyboardUsage::KeyboardAlternateErase);
        },
        KeyboardUsage::KeyboardSysReqAttention => {
            assert(usage_of_byte(byte_of(KeyboardUsage::KeyboardSysReqAttention)) == KeyboardUsage::KeyboardSysReqAttention);
        },
        KeyboardUsage::KeyboardCancel => {
            assert(usage_of_byte(byte_of(KeyboardUsage::KeyboardCancel)) == KeyboardUsage::KeyboardCancel);
        },
        KeyboardUsage::KeyboardClear => {
            assert(usage_of_byte(byte_of(KeyboardUsage::KeyboardClear)) == KeyboardUsage::KeyboardClear);
        },
        KeyboardUsage::KeyboardPrior => {
            assert(usage_of_byte(byte_of(KeyboardUsage::KeyboardPrior)) == KeyboardUsage::KeyboardPrior);
        },
        KeyboardUsage::KeyboardReturn => {
            assert(usage_of_byte(byte_of(KeyboardUsage::KeyboardReturn)) == KeyboardUsage::KeyboardReturn);
        },
        KeyboardUsage::KeyboardSeparator => {
            assert(usage_of_byte(byte_of(KeyboardUsage::KeyboardSeparator)) == KeyboardUsage::KeyboardSeparator);
        },
        KeyboardUsage::KeyboardOut => {
            assert(usage_of_byte(byte_of(KeyboardUsage::KeyboardOut)) == KeyboardUsage::KeyboardOut);
        },
        KeyboardUsage::KeyboardOper => {
            assert(usage_of_byte(byte_of(KeyboardUsage::KeyboardOper)) == KeyboardUsage::KeyboardOper);
        },
        KeyboardUsage::KeyboardClearAgain => {
            assert(usage_of_byte(byte_of(KeyboardUsage::KeyboardClearAgain)) == KeyboardUsage::KeyboardClearAgain);
        },
        KeyboardUsage::KeyboardCrSelProps => {
            assert(usage_of_byte(byte_of(KeyboardUsage::KeyboardCrSelProps)) == KeyboardUsage::KeyboardCrSelProps);
        },
        KeyboardUsage::KeyboardExSel => {
            assert(usage_of_byte(byte_of(KeyboardUsage::KeyboardExSel)) == KeyboardUsage::KeyboardExSel);
        },
        KeyboardUsage::Keypad00 => {
            assert(usage_of_byte(byte_of(KeyboardUsage::Keypad00)) == KeyboardUsage::Keypad00);
        },
        KeyboardUsage::Keypad000 => {
            assert(usage_of_byte(byte_of(KeyboardUsage::Keypad000)) == KeyboardUsage::Keypad000);
        },
        KeyboardUsage::ThousandsSeparator => {
            assert(usage_of_byte(byte_of(KeyboardUsage::ThousandsSeparator)) == KeyboardUsage::ThousandsSeparator);
        },
        KeyboardUsage::DecimalSeparator => {
            assert(usage_of_byte(byte_of(KeyboardUsage::DecimalSeparator)) == KeyboardUsage::DecimalSeparator);
        },
        KeyboardUsage::CurrencyUnit => {
            assert(usage_of_byte(byte_of(KeyboardUsage::CurrencyUnit)) == KeyboardUsage::CurrencyUnit);
        },
        KeyboardUsage::CurrencySubunit => {
            assert(usage_of_byte(byte_of(KeyboardUsage::CurrencySubunit)) == KeyboardUsage::CurrencySubunit);
        },
        KeyboardUsage::KeypadOpenParens => {
            assert(usage_of_byte(byte_of(KeyboardUsage::KeypadOpenParens)) == KeyboardUsage::KeypadOpenParens);
        },
        KeyboardUsage::KeypadCloseParens => {
            assert(usage_of_byte(byte_of(KeyboardUsage::KeypadCloseParens)) == KeyboardUsage::KeypadCloseParens);
        },
        KeyboardUsage::KeypadOpenBrace => {
            assert(usage_of_byte(byte_of(KeyboardUsage::KeypadOpenBrace)) == KeyboardUsage::KeypadOpenBrace);
        },
        KeyboardUsage::KeypadCloseBrace => {
            assert(usage_of_byte(byte_of(KeyboardUsage::KeypadCloseBrace)) == KeyboardUsage::KeypadCloseBrace);
        },
        KeyboardUsage::KeypadTab => {
            assert(usage_of_byte(byte_of(KeyboardUsage::KeypadTab)) == KeyboardUsage::KeypadTab);
        },
        KeyboardUsage::KeypadBackspace => {
            assert(usage_of_byte(byte_of(KeyboardUsage::KeypadBackspace)) == KeyboardUsage::KeypadBackspace);
        },
        KeyboardUsage::KeypadA => {
            assert(usage_of_byte(byte_of(KeyboardUsage::KeypadA)) == KeyboardUsage::KeypadA);
        },
        KeyboardUsage::KeypadB => {
            assert(usage_of_byte(byte_of(KeyboardUsage::KeypadB)) == KeyboardUsage::KeypadB);
        },
        KeyboardUsage::KeypadC => {
            assert(usage_of_byte(byte_of(KeyboardUsage::KeypadC)) == KeyboardUsage::KeypadC);
        },
        KeyboardUsage::KeypadD => {
            assert(usage_of_byte(byte_of(KeyboardUsage::KeypadD)) == KeyboardUsage::KeypadD);
        },
        KeyboardUsage::KeypadE => {
            assert(usage_of_byte(byte_of(KeyboardUsage::KeypadE)) == KeyboardUsage::KeypadE);
        },
        KeyboardUsage::KeypadF => {
            assert(usage_of_byte(byte_of(KeyboardUsage::KeypadF)) == KeyboardUsage::KeypadF);
        },
        KeyboardUsage::KeypadBitwiseXor => {
            assert(usage_of_byte(byte_of(KeyboardUsage::KeypadBitwiseXor)) == KeyboardUsage::KeypadBitwiseXor);
        },
        KeyboardUsage::KeypadLogicalXor => {
            assert(usage_of_byte(byte_of(KeyboardUsage::KeypadLogicalXor)) == KeyboardUsage::KeypadLogicalXor);
        },
        KeyboardUsage::KeypadModulo => {
            assert(usage_of_byte(byte_of(KeyboardUsage::KeypadModulo)) == KeyboardUsage::KeypadModulo);
        },
        KeyboardUsage::KeypadLeftShift => {
            assert(usage_of_byte(byte_of(KeyboardUsage::KeypadLeftShift)) == KeyboardUsage::KeypadLeftShift);
        },
        KeyboardUsage::KeypadRightShift => {
            assert(usage_of_byte(byte_of(KeyboardUsage::KeypadRightShift)) == KeyboardUsage::KeypadRightShift);
        },
        KeyboardUsage::KeypadBitwiseAnd => {
            assert(usage_of_byte(byte_of(KeyboardUsage::KeypadBitwiseAnd)) == KeyboardUsage::KeypadBitwiseAnd);
        },
        KeyboardUsage::KeypadLogicalAnd => {
            assert(usage_of_byte(byte_of(KeyboardUsage::KeypadLogicalAnd)) == KeyboardUsage::KeypadLogicalAnd);
        },
        KeyboardUsage::KeypadBitwiseOr => {
            assert(usage_of_byte(byte_of(KeyboardUsage::KeypadBitwiseOr)) == KeyboardUsage::KeypadBitwiseOr);
        },
        KeyboardUsage::KeypadLogicalOr => {
            assert(usage_of_byte(byte_of(KeyboardUsage::KeypadLogicalOr)) == KeyboardUsage::KeypadLogicalOr);
        },
        KeyboardUsage::KeypadColon => {
            assert(usage_of_byte(byte_of(KeyboardUsage::KeypadColon)) == KeyboardUsage::KeypadColon);
        },
        KeyboardUsage::KeypadHash => {
            assert(usage_of_byte(byte_of(KeyboardUsage::KeypadHash)) == KeyboardUsage::KeypadHash);
        },
        KeyboardUsage::KeypadSpace => {
            assert(usage_of_byte(byte_of(KeyboardUsage::KeypadSpace)) == KeyboardUsage::KeypadSpace);
        },
        KeyboardUsage::KeypadAt => {
            assert(usage_of_byte(byte_of(KeyboardUsage::KeypadAt)) == KeyboardUsage::KeypadAt);
        },
        KeyboardUsage::KeypadExclamation => {
            assert(usage_of_byte(byte_of(KeyboardUsage::KeypadExclamation)) == KeyboardUsage::KeypadExclamation);
        },
        KeyboardUsage::KeypadMemoryStore => {
            assert(usage_of_byte(byte_of(KeyboardUsage::KeypadMemoryStore)) == KeyboardUsage::KeypadMemoryStore);
        },
        KeyboardUsage::KeypadMemoryRecall => {
            assert(usage_of_byte(byte_of(KeyboardUsage::KeypadMemoryRecall)) == KeyboardUsage::KeypadMemoryRecall);
        },
        KeyboardUsage::KeypadMemoryClear => {
            assert(usage_of_byte(byte_of(KeyboardUsage::KeypadMemoryClear)) == KeyboardUsage::KeypadMemoryClear);
        },
        KeyboardUsage::KeypadMemoryAdd => {
            assert(usage_of_byte(byte_of(KeyboardUsage::KeypadMemoryAdd)) == KeyboardUsage::KeypadMemoryAdd);
        },
        KeyboardUsage::KeypadMemorySubtract => {
            assert(usage_of_byte(byte_of(KeyboardUsage::KeypadMemorySubtract)) == KeyboardUsage::KeypadMemorySubtract);
        },
        KeyboardUsage::KeypadMemoryMultiply => {
            assert(usage_of_byte(byte_of(KeyboardUsage::KeypadMemoryMultiply)) == KeyboardUsage::KeypadMemoryMultiply);
        },
        KeyboardUsage::KeypadMemoryDivide => {
            assert(usage_of_byte(byte_of(KeyboardUsage::KeypadMemoryDivide)) == KeyboardUsage::KeypadMemoryDivide);
        },
        KeyboardUsage::KeypadPositiveNegative => {
            assert(usage_of_byte(byte_of(KeyboardUsage::KeypadPositiveNegative)) == KeyboardUsage::KeypadPositiveNegative);
        },
        KeyboardUsage::KeypadClear => {
            assert(usage_of_byte(byte_of(KeyboardUsage::KeypadClear)) == KeyboardUsage::KeypadClear);
        },
        KeyboardUsage::KeypadClearEntry => {
            assert(usage_of_byte(byte_of(KeyboardUsage::KeypadClearEntry)) == KeyboardUsage::KeypadClearEntry);
        },
        KeyboardUsage::KeypadBinary => {
            assert(usage_of_byte(byte_of(KeyboardUsage::KeypadBinary)) == KeyboardUsage::KeypadBinary);
        },
        KeyboardUsage::KeypadOctal => {
            assert(usage_of_byte(byte_of(KeyboardUsage::KeypadOctal)) == KeyboardUsage::KeypadOctal);
        },
        KeyboardUsage::KeypadDecimal => {
            assert(usage_of_byte(byte_of(KeyboardUsage::KeypadDecimal)) == KeyboardUsage::KeypadDecimal);
        },
        KeyboardUsage::KeypadHexadecimal => {
            assert(usage_of_byte(byte_of(KeyboardUsage::KeypadHexadecimal)) == KeyboardUsage::KeypadHexadecimal);
        },
        KeyboardUsage::KeyboardLeftControl => {
            assert(usage_of_byte(byte_of(KeyboardUsage::KeyboardLeftControl)) == KeyboardUsage::KeyboardLeftControl);
        },
        KeyboardUsage::KeyboardLeftShift => {
            assert(usage_of_byte(byte_of(KeyboardUsage::KeyboardLeftShift)) == KeyboardUsage::KeyboardLeftShift);
        },
        KeyboardUsage::KeyboardLeftAlt => {
            assert(usage_of_byte(byte_of(KeyboardUsage::KeyboardLeftAlt)) == KeyboardUsage::KeyboardLeftAlt);
        },
        KeyboardUsage::KeyboardLeftGUI => {
            assert(usage_of_byte(byte_of(KeyboardUsage::KeyboardLeftGUI)) == KeyboardUsage::KeyboardLeftGUI);
        },
        KeyboardUsage::KeyboardRightControl => {
            assert(usage_of_byte(byte_of(KeyboardUsage::KeyboardRightControl)) == KeyboardUsage::KeyboardRightControl);
        },
        KeyboardUsage::KeyboardRightShift => {
            assert(usage_of_byte(byte_of(KeyboardUsage::KeyboardRightShift)) == KeyboardUsage::KeyboardRightShift);
        },
        KeyboardUsage::KeyboardRightAlt => {
            assert(usage_of_byte(byte_of(KeyboardUsage::KeyboardRightAlt)) == KeyboardUsage::KeyboardRightAlt);
        },
        KeyboardUsage::KeyboardRightGUI => {
            assert(usage_of_byte(byte_of(KeyboardUsage::KeyboardRightGUI)) == KeyboardUsage::KeyboardRightGUI);
        },
        KeyboardUsage::Reserved => {
            assert(usage_of_byte(byte_of(KeyboardUsage::Reserved)) == KeyboardUsage::Reserved);
        },
        KeyboardUsage::KeyboardRaise => {
            assert(usage_of_byte(byte_of(KeyboardUsage::KeyboardRaise)) == KeyboardUsage::KeyboardRaise);
        },
        KeyboardUsage::KeyboardLower => {
            assert(usage_of_byte(byte_of(KeyboardUsage::KeyboardLower)) == KeyboardUsage::KeyboardLower);
        },
        KeyboardUsage::KeyboardEmpty => {
            assert(usage_of_byte(byte_of(KeyboardUsage::KeyboardEmpty)) == KeyboardUsage::KeyboardEmpty);
        },
    }
}

#[verifier::rlimit(50)]
proof fn parse_round_trip_part0(c: KeyboardUsage)
    requires
        c == KeyboardUsage::KeyboardAa || c == KeyboardUsage::KeyboardBb || c == KeyboardUsage::KeyboardCc || c == KeyboardUsage::KeyboardDd || c == KeyboardUsage::KeyboardEe || c == KeyboardUsage::KeyboardFf || c == KeyboardUsage::KeyboardGg || c == KeyboardUsage::KeyboardHh || c == KeyboardUsage::KeyboardIi || c == KeyboardUsage::KeyboardJj || c == KeyboardUsage::KeyboardKk || c == KeyboardUsage::KeyboardLl || c == KeyboardUsage::KeyboardMm || c == KeyboardUsage::KeyboardNn,
    ensures
        parse_label_view(label_view(c)) == c,
{
    reveal_strlit("A");
    reveal_strlit("B");
    reveal_strlit("C");
    reveal_strlit("D");
    reveal_strlit("E");
    reveal_strlit("F");
    reveal_strlit("G");
    reveal_strlit("H");
    reveal_strlit("I");
    reveal_strlit("J");
    reveal_strlit("K");
    reveal_strlit("L");
    reveal_strlit("M");
    reveal_strlit("N");
    assert("A"@.len() == 1);
    assert("B"@.len() == 1);
    assert("C"@.len() == 1);
    assert("D"@.len() == 1);
    assert("E"@.len() == 1);
    assert("F"@.len() == 1);
    assert("G"@.len() == 1);
    assert("H"@.len() == 1);
    assert("I"@.len() == 1);
    assert("J"@.len() == 1);
    assert("K"@.len() == 1);
    assert("L"@.len() == 1);
    assert("M"@.len() == 1);
    assert("N"@.len() == 1);
    assert("A"@[0] == 'A');
    assert("B"@[0] == 'B');
    assert("C"@[0] == 'C');
    assert("D"@[0] == 'D');
    assert("E"@[0] == 'E');
    assert("F"@[0] == 'F');
    assert("G"@[0] == 'G');
    assert("H"@[0] == 'H');
    assert("I"@[0] == 'I');
    assert("J"@[0] == 'J');
    assert("K"@[0] == 'K');
    assert("L"@[0] == 'L');
    assert("M"@[0] == 'M');
    assert("N"@[0] == 'N');
    match c {
        KeyboardUsage::KeyboardAa => {
            assert(parse_label_view("A"@) == KeyboardUsage::KeyboardAa);
        },
        KeyboardUsage::KeyboardBb => {
            assert(parse_label_view("B"@) == KeyboardUsage::KeyboardBb);
        },
        KeyboardUsage::KeyboardCc => {
            assert(parse_label_view("C"@) == KeyboardUsage::KeyboardCc);
        },
        KeyboardUsage::KeyboardDd => {
            assert(parse_label_view("D"@) == KeyboardUsage::KeyboardDd);
        },
        KeyboardUsage::KeyboardEe => {
            assert(parse_label_view("E"@) == KeyboardUsage::KeyboardEe);
        },
        KeyboardUsage::KeyboardFf => {
            assert(parse_label_view("F"@) == KeyboardUsage::KeyboardFf);
        },
        KeyboardUsage::KeyboardGg => {
            assert(parse_label_view("G"@) == KeyboardUsage::KeyboardGg);
        },
        KeyboardUsage::KeyboardHh => {
            assert(parse_label_view("H"@) == KeyboardUsage::KeyboardHh);
        },
        KeyboardUsage::KeyboardIi => {
            assert(parse_label_view("I"@) == KeyboardUsage::KeyboardIi);
        },
        KeyboardUsage::KeyboardJj => {
            assert(parse_label_view("J"@) == KeyboardUsage::KeyboardJj);
        },
        KeyboardUsage::KeyboardKk => {
            assert(parse_label_view("K"@) == KeyboardUsage::KeyboardKk);
        },
        KeyboardUsage::KeyboardLl => {
            assert(parse_label_view("L"@) == KeyboardUsage::KeyboardLl);
        },
        KeyboardUsage::KeyboardMm => {
            assert(parse_label_view("M"@) == KeyboardUsage::KeyboardMm);
        },
        KeyboardUsage::KeyboardNn => {
            assert(parse_label_view("N"@) == KeyboardUsage::KeyboardNn);
        },
        _ => {},
    }
}

#[verifier::rlimit(50)]
proof fn parse_round_trip_part1(c: KeyboardUsage)
    requires
        c == KeyboardUsage::KeyboardOo || c == KeyboardUsage::KeyboardPp || c == KeyboardUsage::KeyboardQq || c == KeyboardUsage::KeyboardRr || c == KeyboardUsage::KeyboardSs || c == KeyboardUsage::KeyboardTt || c == KeyboardUsage::KeyboardUu || c == KeyboardUsage::KeyboardVv || c == KeyboardUsage::KeyboardWw || c == KeyboardUsage::KeyboardXx || c == KeyboardUsage::KeyboardYy || c == KeyboardUsage::KeyboardZz || c == KeyboardUsage::Keyboard1Exclamation || c == KeyboardUsage::Keyboard2At,
    ensures
        parse_label_view(label_view(c)) == c,
{
    reveal_strlit("A");
    reveal_strlit("B");
    reveal_strlit("C");
    reveal_strlit("D");
    reveal_strlit("E");
    reveal_strlit("F");
    reveal_strlit("G");
    reveal_strlit("H");
    reveal_strlit("I");
    reveal_strlit("J");
    reveal_strlit("K");
    reveal_strlit("L");
    reveal_strlit("M");
    reveal_strlit("N");
    reveal_strlit("O");
    reveal_strlit("P");
    reveal_strlit("Q");
    reveal_strlit("R");
    reveal_strlit("S");
    reveal_strlit("T");
    reveal_strlit("U");
    reveal_strlit("V");
    reveal_strlit("W");
    reveal_strlit("X");
    reveal_strlit("Y");
    reveal_strlit("Z");
    reveal_strlit("1");
    reveal_strlit("2");
    assert("A"@.len() == 1);
    assert("B"@.len() == 1);
    assert("C"@.len() == 1);
    assert("D"@.len() == 1);
    assert("E"@.len() == 1);
    assert("F"@.len() == 1);
    assert("G"@.len() == 1);
    assert("H"@.len() == 1);
    assert("I"@.len() == 1);
    assert("J"@.len() == 1);
    assert("K"@.len() == 1);
    assert("L"@.len() == 1);
    assert("M"@.len() == 1);
    assert("N"@.len() == 1);
    assert("O"@.len() == 1);
    assert("P"@.len() == 1);
    assert("Q"@.len() == 1);
    assert("R"@.len() == 1);
    assert("S"@.len() == 1);
    assert("T"@.len() == 1);
    assert("U"@.len() == 1);
    assert("V"@.len() == 1);
    assert("W"@.len() == 1);
    assert("X"@.len() == 1);
    assert("Y"@.len() == 1);
    assert("Z"@.len() == 1);
    assert("1"@.len() == 1);
    assert("2"@.len() == 1);
    assert("A"@[0] == 'A');
    assert("O"@[0] == 'O');
    assert("B"@[0] == 'B');
    assert("C"@[0] == 'C');
    assert("D"@[0] == 'D');
    assert("E"@[0] == 'E');
    assert("F"@[0] == 'F');
    assert("G"@[0] == 'G');
    assert("H"@[0] == 'H');
    assert("I"@[0] == 'I');
    assert("J"@[0] == 'J');
    assert("K"@[0] == 'K');
    assert("L"@[0] == 'L');
    assert("M"@[0] == 'M');
    assert("N"@[0] == 'N');
    assert("P"@[0] == 'P');
    assert("Q"@[0] == 'Q');
    assert("R"@[0] == 'R');
    assert("S"@[0] == 'S');
    assert("T"@[0] == 'T');
    assert("U"@[0] == 'U');
    assert("V"@[0] == 'V');
    assert("W"@[0] == 'W');
    assert("X"@[0] == 'X');
    assert("Y"@[0] == 'Y');
    assert("Z"@[0] == 'Z');
    assert("1"@[0] == '1');
    assert("2"@[0] == '2');
    match c {
        KeyboardUsage::KeyboardOo => {
            assert(parse_label_view("O"@) == KeyboardUsage::KeyboardOo);
        },
        KeyboardUsage::KeyboardPp => {
            assert(parse_label_view("P"@) == KeyboardUsage::KeyboardPp);
        },
        KeyboardUsage::KeyboardQq => {
            assert(parse_label_view("Q"@) == KeyboardUsage::KeyboardQq);
        },
        KeyboardUsage::KeyboardRr => {
            assert(parse_label_view("R"@) == KeyboardUsage::KeyboardRr);
        },
        KeyboardUsage::KeyboardSs => {
            assert(parse_label_view("S"@) == KeyboardUsage::KeyboardSs);
        },
        KeyboardUsage::KeyboardTt => {
            assert(parse_label_view("T"@) == KeyboardUsage::KeyboardTt);
        },
        KeyboardUsage::KeyboardUu => {
            assert(parse_label_view("U"@) == KeyboardUsage::KeyboardUu);
        },
        KeyboardUsage::KeyboardVv => {
            assert(parse_label_view("V"@) == KeyboardUsage::KeyboardVv);
        },
        KeyboardUsage::KeyboardWw => {
            assert(parse_label_view("W"@) == KeyboardUsage::KeyboardWw);
        },
        KeyboardUsage::KeyboardXx => {
            assert(parse_label_view("X"@) == KeyboardUsage::KeyboardXx);
        },
        KeyboardUsage::KeyboardYy => {
            assert(parse_label_view("Y"@) == KeyboardUsage::KeyboardYy);
        },
        KeyboardUsage::KeyboardZz => {
            assert(parse_label_view("Z"@) == KeyboardUsage::KeyboardZz);
        },
        KeyboardUsage::Keyboard1Exclamation => {
            assert(parse_label_view("1"@) == KeyboardUsage::Keyboard1Exclamation);
        },
        KeyboardUsage::Keyboard2At => {
            assert(parse_label_view("2"@) == KeyboardUsage::Keyboard2At);
        },
        _ => {},
    }
}

#[verifier::rlimit(50)]
proof fn parse_round_trip_part2(c: KeyboardUsage)
    requires
        c == KeyboardUsage::Keyboard3Hash || c == KeyboardUsage::Keyboard4Dollar || c == KeyboardUsage::Keyboard5Percent || c == KeyboardUsage::Keyboard6Caret || c == KeyboardUsage::Keyboard7Ampersand || c == KeyboardUsage::Keyboard8Asterisk || c == KeyboardUsage::Keyboard9OpenParens || c == KeyboardUsage::Keyboard0CloseParens || c == KeyboardUsage::KeyboardEnter || c == KeyboardUsage::KeyboardEscape || c == KeyboardUsage::KeyboardBackspace || c == KeyboardUsage::KeyboardTab || c == KeyboardUsage::KeyboardSpacebar || c == KeyboardUsage::KeyboardCapsLock,
    ensures
        parse_label_view(label_view(c)) == c,
{
    reveal_strlit("A");
    reveal_strlit("B");
    reveal_strlit("C");
    reveal_strlit("D");
    reveal_strlit("E");
    reveal_strlit("F");
    reveal_strlit("G");
    reveal_strlit("H");
    reveal_strlit("I");
    reveal_strlit("J");
    reveal_strlit("K");
    reveal_strlit("L");
    reveal_strlit("M");
    reveal_strlit("N");
    reveal_strlit("O");
    reveal_strlit("P");
    reveal_strlit("Q");
    reveal_strlit("R");
    reveal_strlit("S");
    reveal_strlit("T");
    reveal_strlit("U");
    reveal_strlit("V");
    reveal_strlit("W");
    reveal_strlit("X");
    reveal_strlit("Y");
    reveal_strlit("Z");
    reveal_strlit("1");
    reveal_strlit("2");
    reveal_strlit("3");
    reveal_strlit("4");
    reveal_strlit("5");
    reveal_strlit("6");
    reveal_strlit("7");
    reveal_strlit("8");
    reveal_strlit("9");
    reveal_strlit("0");
    reveal_strlit("Enter");
    reveal_strlit("Esc");
    reveal_strlit("BKSP");
    reveal_strlit("Tab");
    reveal_strlit("Space");
    reveal_strlit("Caps");
    assert("A"@.len() == 1);
    assert("B"@.len() == 1);
    assert("C"@.len() == 1);
    assert("D"@.len() == 1);
    assert("E"@.len() == 1);
    assert("F"@.len() == 1);
    assert("G"@.len() == 1);
    assert("H"@.len() == 1);
    assert("I"@.len() == 1);
    assert("J"@.len() == 1);
    assert("K"@.len() == 1);
    assert("L"@.len() == 1);
    assert("M"@.len() == 1);
    assert("N"@.len() == 1);
    assert("O"@.len() == 1);
    assert("P"@.len() == 1);
    assert("Q"@.len() == 1);
    assert("R"@.len() == 1);
    assert("S"@.len() == 1);
    assert("T"@.len() == 1);
    assert("U"@.len() == 1);
    assert("V"@.len() == 1);
    assert("W"@.len() == 1);
    assert("X"@.len() == 1);
    assert("Y"@.len() == 1);
    assert("Z"@.len() == 1);
    assert("1"@.len() == 1);
    assert("2"@.len() == 1);
    assert("3"@.len() == 1);
    assert("4"@.len() == 1);
    assert("5"@.len() == 1);
    assert("6"@.len() == 1);
    assert("7"@.len() == 1);
    assert("8"@.len() == 1);
    assert("9"@.len() == 1);
    assert("0"@.len() == 1);
    assert("Enter"@.len() == 5);
    assert("Esc"@.len() == 3);
    assert("BKSP"@.len() == 4);
    assert("Tab"@.len() == 3);
    assert("Space"@.len() == 5);
    assert("Caps"@.len() == 4);
    assert("A"@[0] == 'A');
    assert("3"@[0] == '3');
    assert("B"@[0] == 'B');
    assert("C"@[0] == 'C');
    assert("D"@[0] == 'D');
    assert("E"@[0] == 'E');
    assert("F"@[0] == 'F');
    assert("G"@[0] == 'G');
    assert("H"@[0] == 'H');
    assert("I"@[0] == 'I');
    assert("J"@[0] == 'J');
    assert("K"@[0] == 'K');
    assert("L"@[0] == 'L');
    assert("M"@[0] == 'M');
    assert("N"@[0] == 'N');
    assert("O"@[0] == 'O');
    assert("P"@[0] == 'P');
    assert("Q"@[0] == 'Q');
    assert("R"@[0] == 'R');
    assert("S"@[0] == 'S');
    assert("T"@[0] == 'T');
    assert("U"@[0] == 'U');
    assert("V"@[0] == 'V');
    assert("W"@[0] == 'W');
    assert("X"@[0] == 'X');
    assert("Y"@[0] == 'Y');
    assert("Z"@[0] == 'Z');
    assert("1"@[0] == '1');
    assert("2"@[0] == '2');
    assert("4"@[0] == '4');
    assert("5"@[0] == '5');
    assert("6"@[0] == '6');
    assert("7"@[0] == '7');
    assert("8"@[0] == '8');
    assert("9"@[0] == '9');
    assert("0"@[0] == '0');
    assert("Esc"@[0] == 'E');
    assert("Tab"@[0] == 'T');
    assert("Enter"@[0] == 'E');
    assert("Space"@[0] == 'S');
    assert("BKSP"@[0] == 'B');
    assert("Caps"@[0] == 'C');
    match c {
        KeyboardUsage::Keyboard3Hash => {
            assert(parse_label_view("3"@) == KeyboardUsage::Keyboard3Hash);
        },
        KeyboardUsage::Keyboard4Dollar => {
            assert(parse_label_view("4"@) == KeyboardUsage::Keyboard4Dollar);
        },
        KeyboardUsage::Keyboard5Percent => {
            assert(parse_label_view("5"@) == KeyboardUsage::Keyboard5Percent);
        },
        KeyboardUsage::Keyboard6Caret => {
            assert(parse_label_view("6"@) == KeyboardUsage::Keyboard6Caret);
        },
        KeyboardUsage::Keyboard7Ampersand => {
            assert(parse_label_view("7"@) == KeyboardUsage::Keyboard7Ampersand);
        },
        KeyboardUsage::Keyboard8Asterisk => {
            assert(parse_label_view("8"@) == KeyboardUsage::Keyboard8Asterisk);
        },
        KeyboardUsage::Keyboard9OpenParens => {
            assert(parse_label_view("9"@) == KeyboardUsage::Keyboard9OpenParens);
        },
        KeyboardUsage::Keyboard0CloseParens => {
            assert(parse_label_view("0"@) == KeyboardUsage::Keyboard0CloseParens);
        },
        KeyboardUsage::KeyboardEnter => {
            assert(parse_label_view("Enter"@) == KeyboardUsage::KeyboardEnter);
        },
        KeyboardUsage::KeyboardEscape => {
            assert(parse_label_view("Esc"@) == KeyboardUsage::KeyboardEscape);
        },
        KeyboardUsage::KeyboardBackspace => {
            assert(parse_label_view("BKSP"@) == KeyboardUsage::KeyboardBackspace);
        },
        KeyboardUsage::KeyboardTab => {
            assert(parse_label_view("Tab"@) == KeyboardUsage::KeyboardTab);
        },
        KeyboardUsage::KeyboardSpacebar => {
            assert(parse_label_view("Space"@) == KeyboardUsage::KeyboardSpacebar);
        },
        KeyboardUsage::KeyboardCapsLock => {
            assert(parse_label_view("Caps"@) == KeyboardUsage::KeyboardCapsLock);
        },
        _ => {},
    }
}

#[verifier::rlimit(50)]
proof fn parse_round_trip_part3(c: KeyboardUsage)
    requires
        c == KeyboardUsage::KeyboardDashUnderscore || c == KeyboardUsage::KeyboardEqualPlus || c == KeyboardUsage::KeyboardOpenBracketBrace || c == KeyboardUsage::KeyboardCloseBracketBrace || c == KeyboardUsage::KeyboardBackslashBar || c == KeyboardUsage::KeyboardSemiColon || c == KeyboardUsage::KeyboardSingleDoubleQuote || c == KeyboardUsage::KeyboardBacktickTilde || c == KeyboardUsage::KeyboardCommaLess || c == KeyboardUsage::KeyboardPeriodGreater || c == KeyboardUsage::KeyboardSlashQuestion || c == KeyboardUsage::KeyboardF1 || c == KeyboardUsage::KeyboardF2 || c == KeyboardUsage::KeyboardF3,
    ensures
        parse_label_view(label_view(c)) == c,
{
    reveal_strlit("A");
    reveal_strlit("B");
    reveal_strlit("C");
    reveal_strlit("D");
    reveal_strlit("E");
    reveal_strlit("F");
    reveal_strlit("G");
    reveal_strlit("H");
    reveal_strlit("I");
    reveal_strlit("J");
    reveal_strlit("K");
    reveal_strlit("L");
    reveal_strlit("M");
    reveal_strlit("N");
    reveal_strlit("O");
    reveal_strlit("P");
    reveal_strlit("Q");
    reveal_strlit("R");
    reveal_strlit("S");
    reveal_strlit("T");
    reveal_strlit("U");
    reveal_strlit("V");
    reveal_strlit("W");
    reveal_strlit("X");
    reveal_strlit("Y");
    reveal_strlit("Z");
    reveal_strlit("1");
    reveal_strlit("2");
    reveal_strlit("3");
    reveal_strlit("4");
    reveal_strlit("5");
    reveal_strlit("6");
    reveal_strlit("7");
    reveal_strlit("8");
    reveal_strlit("9");
    reveal_strlit("0");
    reveal_strlit("Enter");
    reveal_strlit("Esc");
    reveal_strlit("BKSP");
    reveal_strlit("Tab");
    reveal_strlit("Space");
    reveal_strlit("Caps");
    reveal_strlit("-");
    reveal_strlit("=");
    reveal_strlit("[");
    reveal_strlit("]");
    reveal_strlit("\\");
    reveal_strlit(";");
    reveal_strlit("'");
    reveal_strlit("`");
    reveal_strlit(",");
    reveal_strlit(".");
    reveal_strlit("/");
    reveal_strlit("F1");
    reveal_strlit("F2");
    reveal_strlit("F3");
    assert("A"@.len() == 1);
    assert("B"@.len() == 1);
    assert("C"@.len() == 1);
    assert("D"@.len() == 1);
    assert("E"@.len() == 1);
    assert("F"@.len() == 1);
    assert("G"@.len() == 1);
    assert("H"@.len() == 1);
    assert("I"@.len() == 1);
    assert("J"@.len() == 1);
    assert("K"@.len() == 1);
    assert("L"@.len() == 1);
    assert("M"@.len() == 1);
    assert("N"@.len() == 1);
    assert("O"@.len() == 1);
    assert("P"@.len() == 1);
    assert("Q"@.len() == 1);
    assert("R"@.len() == 1);
    assert("S"@.len() == 1);
    assert("T"@.len() == 1);
    assert("U"@.len() == 1);
    assert("V"@.len() == 1);
    assert("W"@.len() == 1);
    assert("X"@.len() == 1);
    assert("Y"@.len() == 1);
    assert("Z"@.len() == 1);
    assert("1"@.len() == 1);
    assert("2"@.len() == 1);
    assert("3"@.len() == 1);
    assert("4"@.len() == 1);
    assert("5"@.len() == 1);
    assert("6"@.len() == 1);
    assert("7"@.len() == 1);
    assert("8"@.len() == 1);
    assert("9"@.len() == 1);
    assert("0"@.len() == 1);
    assert("Enter"@.len() == 5);
    assert("Esc"@.len() == 3);
    assert("BKSP"@.len() == 4);
    assert("Tab"@.len() == 3);
    assert("Space"@.len() == 5);
    assert("Caps"@.len() == 4);
    assert("-"@.len() == 1);
    assert("="@.len() == 1);
    assert("["@.len() == 1);
    assert("]"@.len() == 1);
    assert("\\"@.len() == 1);
    assert(";"@.len() == 1);
    assert("'"@.len() == 1);
    assert("`"@.len() == 1);
    assert(","@.len() == 1);
    assert("."@.len() == 1);
    assert("/"@.len() == 1);
    assert("F1"@.len() == 2);
    assert("F2"@.len() == 2);
    assert("F3"@.len() == 2);
    assert("A"@[0] == 'A');
    assert("-"@[0] == '-');
    assert("B"@[0] == 'B');
    assert("C"@[0] == 'C');
    assert("D"@[0] == 'D');
    assert("E"@[0] == 'E');
    assert("F"@[0] == 'F');
    assert("G"@[0] == 'G');
    assert("H"@[0] == 'H');
    assert("I"@[0] == 'I');
    assert("J"@[0] == 'J');
    assert("K"@[0] == 'K');
    assert("L"@[0] == 'L');
    assert("M"@[0] == 'M');
    assert("N"@[0] == 'N');
    assert("O"@[0] == 'O');
    assert("P"@[0] == 'P');
    assert("Q"@[0] == 'Q');
    assert("R"@[0] == 'R');
    assert("S"@[0] == 'S');
    assert("T"@[0] == 'T');
    assert("U"@[0] == 'U');
    assert("V"@[0] == 'V');
    assert("W"@[0] == 'W');
    assert("X"@[0] == 'X');
    assert("Y"@[0] == 'Y');
    assert("Z"@[0] == 'Z');
    assert("1"@[0] == '1');
    assert("2"@[0] == '2');
    assert("3"@[0] == '3');
    assert("4"@[0] == '4');
    assert("5"@[0] == '5');
    assert("6"@[0] == '6');
    assert("7"@[0] == '7');
    assert("8"@[0] == '8');
    assert("9"@[0] == '9');
    assert("0"@[0] == '0');
    assert("="@[0] == '=');
    assert("["@[0] == '[');
    assert("]"@[0] == ']');
    assert("\\"@[0] == '\\');
    assert(";"@[0] == ';');
    assert("'"@[0] == '\'');
    assert("`"@[0] == '`');
    assert(","@[0] == ',');
    assert("."@[0] == '.');
    assert("/"@[0] == '/');
    assert("F1"@[1] == '1');
    assert("F2"@[1] == '2');
    assert("F3"@[1] == '3');
    match c {
        KeyboardUsage::KeyboardDashUnderscore => {
            assert(parse_label_view("-"@) == KeyboardUsage::KeyboardDashUnderscore);
        },
        KeyboardUsage::KeyboardEqualPlus => {
            assert(parse_label_view("="@) == KeyboardUsage::KeyboardEqualPlus);
        },
        KeyboardUsage::KeyboardOpenBracketBrace => {
            assert(parse_label_view("["@) == KeyboardUsage::KeyboardOpenBracketBrace);
        },
        KeyboardUsage::KeyboardCloseBracketBrace => {
            assert(parse_label_view("]"@) == KeyboardUsage::KeyboardCloseBracketBrace);
        },
        KeyboardUsage::KeyboardBackslashBar => {
            assert(parse_label_view("\\"@) == KeyboardUsage::KeyboardBackslashBar);
        },
        KeyboardUsage::KeyboardSemiColon => {
            assert(parse_label_view(";"@) == KeyboardUsage::KeyboardSemiColon);
        },
        KeyboardUsage::KeyboardSingleDoubleQuote => {
            assert(parse_label_view("'"@) == KeyboardUsage::KeyboardSingleDoubleQuote);
        },
        KeyboardUsage::KeyboardBacktickTilde => {
            assert(parse_label_view("`"@) == KeyboardUsage::KeyboardBacktickTilde);
        },
        KeyboardUsage::KeyboardCommaLess => {
            assert(parse_label_view(","@) == KeyboardUsage::KeyboardCommaLess);
        },
        KeyboardUsage::KeyboardPeriodGreater => {
            assert(parse_label_view("."@) == KeyboardUsage::KeyboardPeriodGreater);
        },
        KeyboardUsage::KeyboardSlashQuestion => {
            assert(parse_label_view("/"@) == KeyboardUsage::KeyboardSlashQuestion);
        },
        KeyboardUsage::KeyboardF1 => {
            assert(parse_label_view("F1"@) == KeyboardUsage::KeyboardF1);
        },
        KeyboardUsage::KeyboardF2 => {
            assert(parse_label_view("F2"@) == KeyboardUsage::KeyboardF2);
        },
        KeyboardUsage::KeyboardF3 => {
            assert(parse_label_view("F3"@) == KeyboardUsage::KeyboardF3);
        },
        _ => {},
    }
}

#[verifier::rlimit(50)]
proof fn parse_round_trip_part4(c: KeyboardUsage)
    requires
        c == KeyboardUsage::KeyboardF4 || c == KeyboardUsage::KeyboardF5 || c == KeyboardUsage::KeyboardF6 || c == KeyboardUsage::KeyboardF7 || c == KeyboardUsage::KeyboardF8 || c == KeyboardUsage::KeyboardF9 || c == KeyboardUsage::KeyboardF10 || c == KeyboardUsage::KeyboardF11 || c == KeyboardUsage::KeyboardF12 || c == KeyboardUsage::KeyboardPrintScreen || c == KeyboardUsage::KeyboardScrollLock || c == KeyboardUsage::KeyboardPause || c == KeyboardUsage::KeyboardInsert || c == KeyboardUsage::KeyboardHome,
    ensures
        parse_label_view(label_view(c)) == c,
{
    reveal_strlit("A");
    reveal_strlit("B");
    reveal_strlit("C");
    reveal_strlit("D");
    reveal_strlit("E");
    reveal_strlit("F");
    reveal_strlit("G");
    reveal_strlit("H");
    reveal_strlit("I");
    reveal_strlit("J");
    reveal_strlit("K");
    reveal_strlit("L");
    reveal_strlit("M");
    reveal_strlit("N");
    reveal_strlit("O");
    reveal_strlit("P");
    reveal_strlit("Q");
    reveal_strlit("R");
    reveal_strlit("S");
    reveal_strlit("T");
    reveal_strlit("U");
    reveal_strlit("V");
    reveal_strlit("W");
    reveal_strlit("X");
    reveal_strlit("Y");
    reveal_strlit("Z");
    reveal_strlit("1");
    reveal_strlit("2");
    reveal_strlit("3");
    reveal_strlit("4");
    reveal_strlit("5");
    reveal_strlit("6");
    reveal_strlit("7");
    reveal_strlit("8");
    reveal_strlit("9");
    reveal_strlit("0");
    reveal_strlit("Enter");
    reveal_strlit("Esc");
    reveal_strlit("BKSP");
    reveal_strlit("Tab");
    reveal_strlit("Space");
    reveal_strlit("Caps");
    reveal_strlit("-");
    reveal_strlit("=");
    reveal_strlit("[");
    reveal_strlit("]");
    reveal_strlit("\\");
    reveal_strlit(";");
    reveal_strlit("'");
    reveal_strlit("`");
    reveal_strlit(",");
    reveal_strlit(".");
    reveal_strlit("/");
    reveal_strlit("F1");
    reveal_strlit("F2");
    reveal_strlit("F3");
    reveal_strlit("F4");
    reveal_strlit("F5");
    reveal_strlit("F6");
    reveal_strlit("F7");
    reveal_strlit("F8");
    reveal_strlit("F9");
    reveal_strlit("F10");
    reveal_strlit("F11");
    reveal_strlit("F12");
    reveal_strlit("PrtSc");
    reveal_strlit("ScrLk");
    reveal_strlit("Pause");
    reveal_strlit("Ins");
    reveal_strlit("Home");
    assert("A"@.len() == 1);
    assert("B"@.len() == 1);
    assert("C"@.len() == 1);
    assert("D"@.len() == 1);
    assert("E"@.len() == 1);
    assert("F"@.len() == 1);
    assert("G"@.len() == 1);
    assert("H"@.len() == 1);
    assert("I"@.len() == 1);
    assert("J"@.len() == 1);
    assert("K"@.len() == 1);
    assert("L"@.len() == 1);
    assert("M"@.len() == 1);
    assert("N"@.len() == 1);
    assert("O"@.len() == 1);
    assert("P"@.len() == 1);
    assert("Q"@.len() == 1);
    assert("R"@.len() == 1);
    assert("S"@.len() == 1);
    assert("T"@.len() == 1);
    assert("U"@.len() == 1);
    assert("V"@.len() == 1);
    assert("W"@.len() == 1);
    assert("X"@.len() == 1);
    assert("Y"@.len() == 1);
    assert("Z"@.len() == 1);
    assert("1"@.len() == 1);
    assert("2"@.len() == 1);
    assert("3"@.len() == 1);
    assert("4"@.len() == 1);
    assert("5"@.len() == 1);
    assert("6"@.len() == 1);
    assert("7"@.len() == 1);
    assert("8"@.len() == 1);
    assert("9"@.len() == 1);
    assert("0"@.len() == 1);
    assert("Enter"@.len() == 5);
    assert("Esc"@.len() == 3);
    assert("BKSP"@.len() == 4);
    assert("Tab"@.len() == 3);
    assert("Space"@.len() == 5);
    assert("Caps"@.len() == 4);
    assert("-"@.len() == 1);
    assert("="@.len() == 1);
    assert("["@.len() == 1);
    assert("]"@.len() == 1);
    assert("\\"@.len() == 1);
    assert(";"@.len() == 1);
    assert("'"@.len() == 1);
    assert("`"@.len() == 1);
    assert(","@.len() == 1);
    assert("."@.len() == 1);
    assert("/"@.len() == 1);
    assert("F1"@.len() == 2);
    assert("F2"@.len() == 2);
    assert("F3"@.len() == 2);
    assert("F4"@.len() == 2);
    assert("F5"@.len() == 2);
    assert("F6"@.len() == 2);
    assert("F7"@.len() == 2);
    assert("F8"@.len() == 2);
    assert("F9"@.len() == 2);
    assert("F10"@.len() == 3);
    assert("F11"@.len() == 3);
    assert("F12"@.len() == 3);
    assert("PrtSc"@.len() == 5);
    assert("ScrLk"@.len() == 5);
    assert("Pause"@.len() == 5);
    assert("Ins"@.len() == 3);
    assert("Home"@.len() == 4);
    assert("F1"@[1] == '1');
    assert("F4"@[1] == '4');
    assert("F2"@[1] == '2');
    assert("F3"@[1] == '3');
    assert("F5"@[1] == '5');
    assert("F6"@[1] == '6');
    assert("F7"@[1] == '7');
    assert("F8"@[1] == '8');
    assert("F9"@[1] == '9');
    assert("Esc"@[0] == 'E');
    assert("F10"@[0] == 'F');
    assert("Tab"@[0] == 'T');
    assert("F11"@[0] == 'F');
    assert("F10"@[2] == '0');
    assert("F11"@[2] == '1');
    assert("F12"@[0] == 'F');
    assert("F12"@[2] == '2');
    assert("Enter"@[0] == 'E');
    assert("PrtSc"@[0] == 'P');
    assert("Space"@[0] == 'S');
    assert("ScrLk"@[0] == 'S');
    assert("Space"@[1] == 'p');
    assert("ScrLk"@[1] == 'c');
    assert("Pause"@[0] == 'P');
    assert("PrtSc"@[1] == 'r');
    assert("Pause"@[1] == 'a');
    assert("Ins"@[0] == 'I');
    assert("BKSP"@[0] == 'B');
    assert("Home"@[0] == 'H');
    assert("Caps"@[0] == 'C');
    match c {
        KeyboardUsage::KeyboardF4 => {
            assert(parse_label_view("F4"@) == KeyboardUsage::KeyboardF4);
        },
        KeyboardUsage::KeyboardF5 => {
            assert(parse_label_view("F5"@) == KeyboardUsage::KeyboardF5);
        },
        KeyboardUsage::KeyboardF6 => {
            assert(parse_label_view("F6"@) == KeyboardUsage::KeyboardF6);
        },
        KeyboardUsage::KeyboardF7 => {
            assert(parse_label_view("F7"@) == KeyboardUsage::KeyboardF7);
        },
        KeyboardUsage::KeyboardF8 => {
            assert(parse_label_view("F8"@) == KeyboardUsage::KeyboardF8);
        },
        KeyboardUsage::KeyboardF9 => {
            assert(parse_label_view("F9"@) == KeyboardUsage::KeyboardF9);
        },
        KeyboardUsage::KeyboardF10 => {
            assert(parse_label_view("F10"@) == KeyboardUsage::KeyboardF10);
        },
        KeyboardUsage::KeyboardF11 => {
            assert(parse_label_view("F11"@) == KeyboardUsage::KeyboardF11);
        },
        KeyboardUsage::KeyboardF12 => {
            assert(parse_label_view("F12"@) == KeyboardUsage::KeyboardF12);
        },
        KeyboardUsage::KeyboardPrintScreen => {
            assert(parse_label_view("PrtSc"@) == KeyboardUsage::KeyboardPrintScreen);
        },
        KeyboardUsage::KeyboardScrollLock => {
            assert(parse_label_view("ScrLk"@) == KeyboardUsage::KeyboardScrollLock);
        },
        KeyboardUsage::KeyboardPause => {
            assert(parse_label_view("Pause"@) == KeyboardUsage::KeyboardPause);
        },
        KeyboardUsage::KeyboardInsert => {
            assert(parse_label_view("Ins"@) == KeyboardUsage::KeyboardInsert);
        },
        KeyboardUsage::KeyboardHome => {
            assert(parse_label_view("Home"@) == KeyboardUsage::KeyboardHome);
        },
        _ => {},
    }
}

#[verifier::rlimit(50)]
proof fn parse_round_trip_part5(c: KeyboardUsage)
    requires
        c == KeyboardUsage::KeyboardPageUp || c == KeyboardUsage::KeyboardDelete || c == KeyboardUsage::KeyboardEnd || c == KeyboardUsage::KeyboardPageDown || c == KeyboardUsage::KeyboardRightArrow || c == KeyboardUsage::KeyboardLeftArrow || c == KeyboardUsage::KeyboardDownArrow || c == KeyboardUsage::KeyboardUpArrow || c == KeyboardUsage::KeyboardLeftControl || c == KeyboardUsage::KeyboardLeftShift || c == KeyboardUsage::KeyboardLeftAlt || c == KeyboardUsage::KeyboardLeftGUI || c == KeyboardUsage::KeyboardRightControl || c == KeyboardUsage::KeyboardRightShift,
    ensures
        parse_label_view(label_view(c)) == c,
{
    reveal_strlit("A");
    reveal_strlit("B");
    reveal_strlit("C");
    reveal_strlit("D");
    reveal_strlit("E");
    reveal_strlit("F");
    reveal_strlit("G");
    reveal_strlit("H");
    reveal_strlit("I");
    reveal_strlit("J");
    reveal_strlit("K");
    reveal_strlit("L");
    reveal_strlit("M");
    reveal_strlit("N");
    reveal_strlit("O");
    reveal_strlit("P");
    reveal_strlit("Q");
    reveal_strlit("R");
    reveal_strlit("S");
    reveal_strlit("T");
    reveal_strlit("U");
    reveal_strlit("V");
    reveal_strlit("W");
    reveal_strlit("X");
    reveal_strlit("Y");
    reveal_strlit("Z");
    reveal_strlit("1");
    reveal_strlit("2");
    reveal_strlit("3");
    reveal_strlit("4");
    reveal_strlit("5");
    reveal_strlit("6");
    reveal_strlit("7");
    reveal_strlit("8");
    reveal_strlit("9");
    reveal_strlit("0");
    reveal_strlit("Enter");
    reveal_strlit("Esc");
    reveal_strlit("BKSP");
    reveal_strlit("Tab");
    reveal_strlit("Space");
    reveal_strlit("Caps");
    reveal_strlit("-");
    reveal_strlit("=");
    reveal_strlit("[");
    reveal_strlit("]");
    reveal_strlit("\\");
    reveal_strlit(";");
    reveal_strlit("'");
    reveal_strlit("`");
    reveal_strlit(",");
    reveal_strlit(".");
    reveal_strlit("/");
    reveal_strlit("F1");
    reveal_strlit("F2");
    reveal_strlit("F3");
    reveal_strlit("F4");
    reveal_strlit("F5");
    reveal_strlit("F6");
    reveal_strlit("F7");
    reveal_strlit("F8");
    reveal_strlit("F9");
    reveal_strlit("F10");
    reveal_strlit("F11");
    reveal_strlit("F12");
    reveal_strlit("PrtSc");
    reveal_strlit("ScrLk");
    reveal_strlit("Pause");
    reveal_strlit("Ins");
    reveal_strlit("Home");
    reveal_strlit("PgUp");
    reveal_strlit("Del");
    reveal_strlit("End");
    reveal_strlit("PgDn");
    reveal_strlit("→");
    reveal_strlit("←");
    reveal_strlit("↓");
    reveal_strlit("↑");
    reveal_strlit("L Ctrl");
    reveal_strlit("L Shift");
    reveal_strlit("L Alt");
    reveal_strlit("L GUI");
    reveal_strlit("R Ctrl");
    reveal_strlit("R Shift");
    assert("A"@.len() == 1);
    assert("B"@.len() == 1);
    assert("C"@.len() == 1);
    assert("D"@.len() == 1);
    assert("E"@.len() == 1);
    assert("F"@.len() == 1);
    assert("G"@.len() == 1);
    assert("H"@.len() == 1);
    assert("I"@.len() == 1);
    assert("J"@.len() == 1);
    assert("K"@.len() == 1);
    assert("L"@.len() == 1);
    assert("M"@.len() == 1);
    assert("N"@.len() == 1);
    assert("O"@.len() == 1);
    assert("P"@.len() == 1);
    assert("Q"@.len() == 1);
    assert("R"@.len() == 1);
    assert("S"@.len() == 1);
    assert("T"@.len() == 1);
    assert("U"@.len() == 1);
    assert("V"@.len() == 1);
    assert("W"@.len() == 1);
    assert("X"@.len() == 1);
    assert("Y"@.len() == 1);
    assert("Z"@.len() == 1);
    assert("1"@.len() == 1);
    assert("2"@.len() == 1);
    assert("3"@.len() == 1);
    assert("4"@.len() == 1);
    assert("5"@.len() == 1);
    assert("6"@.len() == 1);
    assert("7"@.len() == 1);
    assert("8"@.len() == 1);
    assert("9"@.len() == 1);
    assert("0"@.len() == 1);
    assert("Enter"@.len() == 5);
    assert("Esc"@.len() == 3);
    assert("BKSP"@.len() == 4);
    assert("Tab"@.len() == 3);
    assert("Space"@.len() == 5);
    assert("Caps"@.len() == 4);
    assert("-"@.len() == 1);
    assert("="@.len() == 1);
    assert("["@.len() == 1);
    assert("]"@.len() == 1);
    assert("\\"@.len() == 1);
    assert(";"@.len() == 1);
    assert("'"@.len() == 1);
    assert("`"@.len() == 1);
    assert(","@.len() == 1);
    assert("."@.len() == 1);
    assert("/"@.len() == 1);
    assert("F1"@.len() == 2);
    assert("F2"@.len() == 2);
    assert("F3"@.len() == 2);
    assert("F4"@.len() == 2);
    assert("F5"@.len() == 2);
    assert("F6"@.len() == 2);
    assert("F7"@.len() == 2);
    assert("F8"@.len() == 2);
    assert("F9"@.len() == 2);
    assert("F10"@.len() == 3);
    assert("F11"@.len() == 3);
    assert("F12"@.len() == 3);
    assert("PrtSc"@.len() == 5);
    assert("ScrLk"@.len() == 5);
    assert("Pause"@.len() == 5);
    assert("Ins"@.len() == 3);
    assert("Home"@.len() == 4);
    assert("PgUp"@.len() == 4);
    assert("Del"@.len() == 3);
    assert("End"@.len() == 3);
    assert("PgDn"@.len() == 4);
    assert("→"@.len() == 1);
    assert("←"@.len() == 1);
    assert("↓"@.len() == 1);
    assert("↑"@.len() == 1);
    assert("L Ctrl"@.len() == 6);
    assert("L Shift"@.len() == 7);
    assert("L Alt"@.len() == 5);
    assert("L GUI"@.len() == 5);
    assert("R Ctrl"@.len() == 6);
    assert("R Shift"@.len() == 7);
    assert("BKSP"@[0] == 'B');
    assert("PgUp"@[0] == 'P');
    assert("Caps"@[0] == 'C');
    assert("Home"@[0] == 'H');
    assert("Esc"@[0] == 'E');
    assert("Del"@[0] == 'D');
    assert("Tab"@[0] == 'T');
    assert("F10"@[0] == 'F');
    assert("F11"@[0] == 'F');
    assert("F12"@[0] == 'F');
    assert("Ins"@[0] == 'I');
    assert("Esc"@[1] == 's');
    assert("End"@[1] == 'n');
    assert("End"@[0] == 'E');
    assert("PgDn"@[0] == 'P');
    assert("PgUp"@[2] == 'U');
    assert("PgDn"@[2] == 'D');
    assert("A"@[0] == 'A');
    assert("→"@[0] == '→');
    assert("B"@[0] == 'B');
    assert("C"@[0] == 'C');
    assert("D"@[0] == 'D');
    assert("E"@[0] == 'E');
    assert("F"@[0] == 'F');
    assert("G"@[0] == 'G');
    assert("H"@[0] == 'H');
    assert("I"@[0] == 'I');
    assert("J"@[0] == 'J');
    assert("K"@[0] == 'K');
    assert("L"@[0] == 'L');
    assert("M"@[0] == 'M');
    assert("N"@[0] == 'N');
    assert("O"@[0] == 'O');
    assert("P"@[0] == 'P');
    assert("Q"@[0] == 'Q');
    assert("R"@[0] == 'R');
    assert("S"@[0] == 'S');
    assert("T"@[0] == 'T');
    assert("U"@[0] == 'U');
    assert("V"@[0] == 'V');
    assert("W"@[0] == 'W');
    assert("X"@[0] == 'X');
    assert("Y"@[0] == 'Y');
    assert("Z"@[0] == 'Z');
    assert("1"@[0] == '1');
    assert("2"@[0] == '2');
    assert("3"@[0] == '3');
    assert("4"@[0] == '4');
    assert("5"@[0] == '5');
    assert("6"@[0] == '6');
    assert("7"@[0] == '7');
    assert("8"@[0] == '8');
    assert("9"@[0] == '9');
    assert("0"@[0] == '0');
    assert("-"@[0] == '-');
    assert("="@[0] == '=');
    assert("["@[0] == '[');
    assert("]"@[0] == ']');
    assert("\\"@[0] == '\\');
    assert(";"@[0] == ';');
    assert("'"@[0] == '\'');
    assert("`"@[0] == '`');
    assert(","@[0] == ',');
    assert("."@[0] == '.');
    assert("/"@[0] == '/');
    assert("←"@[0] == '←');
    assert("↓"@[0] == '↓');
    assert("↑"@[0] == '↑');
    assert("Enter"@[0] == 'E');
    assert("L Alt"@[0] == 'L');
    assert("Space"@[0] == 'S');
    assert("PrtSc"@[0] == 'P');
    assert("ScrLk"@[0] == 'S');
    assert("Pause"@[0] == 'P');
    assert("L GUI"@[0] == 'L');
    assert("L Alt"@[2] == 'A');
    assert("L GUI"@[2] == 'G');
    assert("L Ctrl"@[0] == 'L');
    assert("R Ctrl"@[0] == 'R');
    assert("L Shift"@[0] == 'L');
    assert("R Shift"@[0] == 'R');
    match c {
        KeyboardUsage::KeyboardPageUp => {
            assert(parse_label_view("PgUp"@) == KeyboardUsage::KeyboardPageUp);
        },
        KeyboardUsage::KeyboardDelete => {
            assert(parse_label_view("Del"@) == KeyboardUsage::KeyboardDelete);
        },
        KeyboardUsage::KeyboardEnd => {
            assert(parse_label_view("End"@) == KeyboardUsage::KeyboardEnd);
        },
        KeyboardUsage::KeyboardPageDown => {
            assert(parse_label_view("PgDn"@) == KeyboardUsage::KeyboardPageDown);
        },
        KeyboardUsage::KeyboardRightArrow => {
            assert(parse_label_view("→"@) == KeyboardUsage::KeyboardRightArrow);
        },
        KeyboardUsage::KeyboardLeftArrow => {
            assert(parse_label_view("←"@) == KeyboardUsage::KeyboardLeftArrow);
        },
        KeyboardUsage::KeyboardDownArrow => {
            assert(parse_label_view("↓"@) == KeyboardUsage::KeyboardDownArrow);
        },
        KeyboardUsage::KeyboardUpArrow => {
            assert(parse_label_view("↑"@) == KeyboardUsage::KeyboardUpArrow);
        },
        KeyboardUsage::KeyboardLeftControl => {
            assert(parse_label_view("L Ctrl"@) == KeyboardUsage::KeyboardLeftControl);
        },
        KeyboardUsage::KeyboardLeftShift => {
            assert(parse_label_view("L Shift"@) == KeyboardUsage::KeyboardLeftShift);
        },
        KeyboardUsage::KeyboardLeftAlt => {
            assert(parse_label_view("L Alt"@) == KeyboardUsage::KeyboardLeftAlt);
        },
        KeyboardUsage::KeyboardLeftGUI => {
            assert(parse_label_view("L GUI"@) == KeyboardUsage::KeyboardLeftGUI);
        },
        KeyboardUsage::KeyboardRightControl => {
            assert(parse_label_view("R Ctrl"@) == KeyboardUsage::KeyboardRightControl);
        },
        KeyboardUsage::KeyboardRightShift => {
            assert(parse_label_view("R Shift"@) == KeyboardUsage::KeyboardRightShift);
        },
        _ => {},
    }
}

#[verifier::rlimit(50)]
proof fn parse_round_trip_part6(c: KeyboardUsage)
    requires
        c == KeyboardUsage::KeyboardRightAlt || c == KeyboardUsage::KeyboardRightGUI || c == KeyboardUsage::KeypadNumLock || c == KeyboardUsage::KeypadDivide || c == KeyboardUsage::KeypadMultiply || c == KeyboardUsage::KeypadMinus || c == KeyboardUsage::KeypadPlus || c == KeyboardUsage::KeypadEnter || c == KeyboardUsage::Keypad1End || c == KeyboardUsage::Keypad2DownArrow || c == KeyboardUsage::Keypad3PageDown || c == KeyboardUsage::Keypad4LeftArrow || c == KeyboardUsage::Keypad5 || c == KeyboardUsage::Keypad6RightArrow,
    ensures
        parse_label_view(label_view(c)) == c,
{
    reveal_strlit("A");
    reveal_strlit("B");
    reveal_strlit("C");
    reveal_strlit("D");
    reveal_strlit("E");
    reveal_strlit("F");
    reveal_strlit("G");
    reveal_strlit("H");
    reveal_strlit("I");
    reveal_strlit("J");
    reveal_strlit("K");
    reveal_strlit("L");
    reveal_strlit("M");
    reveal_strlit("N");
    reveal_strlit("O");
    reveal_strlit("P");
    reveal_strlit("Q");
    reveal_strlit("R");
    reveal_strlit("S");
    reveal_strlit("T");
    reveal_strlit("U");
    reveal_strlit("V");
    reveal_strlit("W");
    reveal_strlit("X");
    reveal_strlit("Y");
    reveal_strlit("Z");
    reveal_strlit("1");
    reveal_strlit("2");
    reveal_strlit("3");
    reveal_strlit("4");
    reveal_strlit("5");
    reveal_strlit("6");
    reveal_strlit("7");
    reveal_strlit("8");
    reveal_strlit("9");
    reveal_strlit("0");
    reveal_strlit("Enter");
    reveal_strlit("Esc");
    reveal_strlit("BKSP");
    reveal_strlit("Tab");
    reveal_strlit("Space");
    reveal_strlit("Caps");
    reveal_strlit("-");
    reveal_strlit("=");
    reveal_strlit("[");
    reveal_strlit("]");
    reveal_strlit("\\");
    reveal_strlit(";");
    reveal_strlit("'");
    reveal_strlit("`");
    reveal_strlit(",");
    reveal_strlit(".");
    reveal_strlit("/");
    reveal_strlit("F1");
    reveal_strlit("F2");
    reveal_strlit("F3");
    reveal_strlit("F4");
    reveal_strlit("F5");
    reveal_strlit("F6");
    reveal_strlit("F7");
    reveal_strlit("F8");
    reveal_strlit("F9");
    reveal_strlit("F10");
    reveal_strlit("F11");
    reveal_strlit("F12");
    reveal_strlit("PrtSc");
    reveal_strlit("ScrLk");
    reveal_strlit("Pause");
    reveal_strlit("Ins");
    reveal_strlit("Home");
    reveal_strlit("PgUp");
    reveal_strlit("Del");
    reveal_strlit("End");
    reveal_strlit("PgDn");
    reveal_strlit("→");
    reveal_strlit("←");
    reveal_strlit("↓");
    reveal_strlit("↑");
    reveal_strlit("L Ctrl");
    reveal_strlit("L Shift");
    reveal_strlit("L Alt");
    reveal_strlit("L GUI");
    reveal_strlit("R Ctrl");
    reveal_strlit("R Shift");
    reveal_strlit("R Alt");
    reveal_strlit("R GUI");
    reveal_strlit("NumLk");
    reveal_strlit("Num /");
    reveal_strlit("Num *");
    reveal_strlit("Num -");
    reveal_strlit("Num +");
    reveal_strlit("Num Ent");
    reveal_strlit("Num 1");
    reveal_strlit("Num 2");
    reveal_strlit("Num 3");
    reveal_strlit("Num 4");
    reveal_strlit("Num 5");
    reveal_strlit("Num 6");
    assert("A"@.len() == 1);
    assert("B"@.len() == 1);
    assert("C"@.len() == 1);
    assert("D"@.len() == 1);
    assert("E"@.len() == 1);
    assert("F"@.len() == 1);
    assert("G"@.len() == 1);
    assert("H"@.len() == 1);
    assert("I"@.len() == 1);
    assert("J"@.len() == 1);
    assert("K"@.len() == 1);
    assert("L"@.len() == 1);
    assert("M"@.len() == 1);
    assert("N"@.len() == 1);
    assert("O"@.len() == 1);
    assert("P"@.len() == 1);
    assert("Q"@.len() == 1);
    assert("R"@.len() == 1);
    assert("S"@.len() == 1);
    assert("T"@.len() == 1);
    assert("U"@.len() == 1);
    assert("V"@.len() == 1);
    assert("W"@.len() == 1);
    assert("X"@.len() == 1);
    assert("Y"@.len() == 1);
    assert("Z"@.len() == 1);
    assert("1"@.len() == 1);
    assert("2"@.len() == 1);
    assert("3"@.len() == 1);
    assert("4"@.len() == 1);
    assert("5"@.len() == 1);
    assert("6"@.len() == 1);
    assert("7"@.len() == 1);
    assert("8"@.len() == 1);
    assert("9"@.len() == 1);
    assert("0"@.len() == 1);
    assert("Enter"@.len() == 5);
    assert("Esc"@.len() == 3);
    assert("BKSP"@.len() == 4);
    assert("Tab"@.len() == 3);
    assert("Space"@.len() == 5);
    assert("Caps"@.len() == 4);
    assert("-"@.len() == 1);
    assert("="@.len() == 1);
    assert("["@.len() == 1);
    assert("]"@.len() == 1);
    assert("\\"@.len() == 1);
    assert(";"@.len() == 1);
    assert("'"@.len() == 1);
    assert("`"@.len() == 1);
    assert(","@.len() == 1);
    assert("."@.len() == 1);
    assert("/"@.len() == 1);
    assert("F1"@.len() == 2);
    assert("F2"@.len() == 2);
    assert("F3"@.len() == 2);
    assert("F4"@.len() == 2);
    assert("F5"@.len() == 2);
    assert("F6"@.len() == 2);
    assert("F7"@.len() == 2);
    assert("F8"@.len() == 2);
    assert("F9"@.len() == 2);
    assert("F10"@.len() == 3);
    assert("F11"@.len() == 3);
    assert("F12"@.len() == 3);
    assert("PrtSc"@.len() == 5);
    assert("ScrLk"@.len() == 5);
    assert("Pause"@.len() == 5);
    assert("Ins"@.len() == 3);
    assert("Home"@.len() == 4);
    assert("PgUp"@.len() == 4);
    assert("Del"@.len() == 3);
    assert("End"@.len() == 3);
    assert("PgDn"@.len() == 4);
    assert("→"@.len() == 1);
    assert("←"@.len() == 1);
    assert("↓"@.len() == 1);
    assert("↑"@.len() == 1);
    assert("L Ctrl"@.len() == 6);
    assert("L Shift"@.len() == 7);
    assert("L Alt"@.len() == 5);
    assert("L GUI"@.len() == 5);
    assert("R Ctrl"@.len() == 6);
    assert("R Shift"@.len() == 7);
    assert("R Alt"@.len() == 5);
    assert("R GUI"@.len() == 5);
    assert("NumLk"@.len() == 5);
    assert("Num /"@.len() == 5);
    assert("Num *"@.len() == 5);
    assert("Num -"@.len() == 5);
    assert("Num +"@.len() == 5);
    assert("Num Ent"@.len() == 7);
    assert("Num 1"@.len() == 5);
    assert("Num 2"@.len() == 5);
    assert("Num 3"@.len() == 5);
    assert("Num 4"@.len() == 5);
    assert("Num 5"@.len() == 5);
    assert("Num 6"@.len() == 5);
    assert("Enter"@[0] == 'E');
    assert("R Alt"@[0] == 'R');
    assert("Space"@[0] == 'S');
    assert("PrtSc"@[0] == 'P');
    assert("ScrLk"@[0] == 'S');
    assert("Pause"@[0] == 'P');
    assert("L Alt"@[0] == 'L');
    assert("L GUI"@[0] == 'L');
    assert("R GUI"@[0] == 'R');
    assert("R Alt"@[2] == 'A');
    assert("R GUI"@[2] == 'G');
    assert("NumLk"@[0] == 'N');
    assert("Num /"@[0] == 'N');
    assert("NumLk"@[3] == 'L');
    assert("Num /"@[3] == ' ');
    assert("Num *"@[0] == 'N');
    assert("Num *"@[3] == ' ');
    assert("Num /"@[4] == '/');
    assert("Num *"@[4] == '*');
    assert("Num -"@[0] == 'N');
    assert("Num -"@[3] == ' ');
    assert("Num -"@[4] == '-');
    assert("Num +"@[0] == 'N');
    assert("Num +"@[3] == ' ');
    assert("Num +"@[4] == '+');
    assert("L Shift"@[0] == 'L');
    assert("Num Ent"@[0] == 'N');
    assert("R Shift"@[0] == 'R');
    assert("Num 1"@[0] == 'N');
    assert("Num 1"@[3] == ' ');
    assert("Num 1"@[4] == '1');
    assert("Num 2"@[0] == 'N');
    assert("Num 2"@[3] == ' ');
    assert("Num 2"@[4] == '2');
    assert("Num 3"@[0] == 'N');
    assert("Num 3"@[3] == ' ');
    assert("Num 3"@[4] == '3');
    assert("Num 4"@[0] == 'N');
    assert("Num 4"@[3] == ' ');
    assert("Num 4"@[4] == '4');
    assert("Num 5"@[0] == 'N');
    assert("Num 5"@[3] == ' ');
    assert("Num 5"@[4] == '5');
    assert("Num 6"@[0] == 'N');
    assert("Num 6"@[3] == ' ');
    assert("Num 6"@[4] == '6');
    match c {
        KeyboardUsage::KeyboardRightAlt => {
            assert(parse_label_view("R Alt"@) == KeyboardUsage::KeyboardRightAlt);
        },
        KeyboardUsage::KeyboardRightGUI => {
            assert(parse_label_view("R GUI"@) == KeyboardUsage::KeyboardRightGUI);
        },
        KeyboardUsage::KeypadNumLock => {
            assert(parse_label_view("NumLk"@) == KeyboardUsage::KeypadNumLock);
        },
        KeyboardUsage::KeypadDivide => {
            assert(parse_label_view("Num /"@) == KeyboardUsage::KeypadDivide);
        },
        KeyboardUsage::KeypadMultiply => {
            assert(parse_label_view("Num *"@) == KeyboardUsage::KeypadMultiply);
        },
        KeyboardUsage::KeypadMinus => {
            assert(parse_label_view("Num -"@) == KeyboardUsage::KeypadMinus);
        },
        KeyboardUsage::KeypadPlus => {
            assert(parse_label_view("Num +"@) == KeyboardUsage::KeypadPlus);
        },
        KeyboardUsage::KeypadEnter => {
            assert(parse_label_view("Num Ent"@) == KeyboardUsage::KeypadEnter);
        },
        KeyboardUsage::Keypad1End => {
            assert(parse_label_view("Num 1"@) == KeyboardUsage::Keypad1End);
        },
        KeyboardUsage::Keypad2DownArrow => {
            assert(parse_label_view("Num 2"@) == KeyboardUsage::Keypad2DownArrow);
        },
        KeyboardUsage::Keypad3PageDown => {
            assert(parse_label_view("Num 3"@) == KeyboardUsage::Keypad3PageDown);
        },
        KeyboardUsage::Keypad4LeftArrow => {
            assert(parse_label_view("Num 4"@) == KeyboardUsage::Keypad4LeftArrow);
        },
        KeyboardUsage::Keypad5 => {
            assert(parse_label_view("Num 5"@) == KeyboardUsage::Keypad5);
        },
        KeyboardUsage::Keypad6RightArrow => {
            assert(parse_label_view("Num 6"@) == KeyboardUsage::Keypad6RightArrow);
        },
        _ => {},
    }
}

#[verifier::rlimit(50)]
proof fn parse_round_trip_part7(c: KeyboardUsage)
    requires
        c == KeyboardUsage::Keypad7Home || c == KeyboardUsage::Keypad8UpArrow || c == KeyboardUsage::Keypad9PageUp || c == KeyboardUsage::Keypad0Insert || c == KeyboardUsage::KeypadPeriodDelete || c == KeyboardUsage::KeypadEqual || c == KeyboardUsage::KeyboardVolumeUp || c == KeyboardUsage::KeyboardVolumeDown || c == KeyboardUsage::KeyboardMute || c == KeyboardUsage::KeyboardRaise || c == KeyboardUsage::KeyboardLower || c == KeyboardUsage::KeyboardEmpty || c == KeyboardUsage::KeyboardApplication || c == KeyboardUsage::KeyboardPower,
    ensures
        parse_label_view(label_view(c)) == c,
{
    reveal_strlit("A");
    reveal_strlit("B");
    reveal_strlit("C");
    reveal_strlit("D");
    reveal_strlit("E");
    reveal_strlit("F");
    reveal_strlit("G");
    reveal_strlit("H");
    reveal_strlit("I");
    reveal_strlit("J");
    reveal_strlit("K");
    reveal_strlit("L");
    reveal_strlit("M");
    reveal_strlit("N");
    reveal_strlit("O");
    reveal_strlit("P");
    reveal_strlit("Q");
    reveal_strlit("R");
    reveal_strlit("S");
    reveal_strlit("T");
    reveal_strlit("U");
    reveal_strlit("V");
    reveal_strlit("W");
    reveal_strlit("X");
    reveal_strlit("Y");
    reveal_strlit("Z");
    reveal_strlit("1");
    reveal_strlit("2");
    reveal_strlit("3");
    reveal_strlit("4");
    reveal_strlit("5");
    reveal_strlit("6");
    reveal_strlit("7");
    reveal_strlit("8");
    reveal_strlit("9");
    reveal_strlit("0");
    reveal_strlit("Enter");
    reveal_strlit("Esc");
    reveal_strlit("BKSP");
    reveal_strlit("Tab");
    reveal_strlit("Space");
    reveal_strlit("Caps");
    reveal_strlit("-");
    reveal_strlit("=");
    reveal_strlit("[");
    reveal_strlit("]");
    reveal_strlit("\\");
    reveal_strlit(";");
    reveal_strlit("'");
    reveal_strlit("`");
    reveal_strlit(",");
    reveal_strlit(".");
    reveal_strlit("/");
    reveal_strlit("F1");
    reveal_strlit("F2");
    reveal_strlit("F3");
    reveal_strlit("F4");
    reveal_strlit("F5");
    reveal_strlit("F6");
    reveal_strlit("F7");
    reveal_strlit("F8");
    reveal_strlit("F9");
    reveal_strlit("F10");
    reveal_strlit("F11");
    reveal_strlit("F12");
    reveal_strlit("PrtSc");
    reveal_strlit("ScrLk");
    reveal_strlit("Pause");
    reveal_strlit("Ins");
    reveal_strlit("Home");
    reveal_strlit("PgUp");
    reveal_strlit("Del");
    reveal_strlit("End");
    reveal_strlit("PgDn");
    reveal_strlit("→");
    reveal_strlit("←");
    reveal_strlit("↓");
    reveal_strlit("↑");
    reveal_strlit("L Ctrl");
    reveal_strlit("L Shift");
    reveal_strlit("L Alt");
    reveal_strlit("L GUI");
    reveal_strlit("R Ctrl");
    reveal_strlit("R Shift");
    reveal_strlit("R Alt");
    reveal_strlit("R GUI");
    reveal_strlit("NumLk");
    reveal_strlit("Num /");
    reveal_strlit("Num *");
    reveal_strlit("Num -");
    reveal_strlit("Num +");
    reveal_strlit("Num Ent");
    reveal_strlit("Num 1");
    reveal_strlit("Num 2");
    reveal_strlit("Num 3");
    reveal_strlit("Num 4");
    reveal_strlit("Num 5");
    reveal_strlit("Num 6");
    reveal_strlit("Num 7");
    reveal_strlit("Num 8");
    reveal_strlit("Num 9");
    reveal_strlit("Num 0");
    reveal_strlit("Num .");
    reveal_strlit("Num =");
    reveal_strlit("Vol+");
    reveal_strlit("Vol-");
    reveal_strlit("Mute");
    reveal_strlit("Raise");
    reveal_strlit("Lower");
    reveal_strlit("");
    reveal_strlit("App");
    reveal_strlit("Power");
    assert("A"@.len() == 1);
    assert("B"@.len() == 1);
    assert("C"@.len() == 1);
    assert("D"@.len() == 1);
    assert("E"@.len() == 1);
    assert("F"@.len() == 1);
    assert("G"@.len() == 1);
    assert("H"@.len() == 1);
    assert("I"@.len() == 1);
    assert("J"@.len() == 1);
    assert("K"@.len() == 1);
    assert("L"@.len() == 1);
    assert("M"@.len() == 1);
    assert("N"@.len() == 1);
    assert("O"@.len() == 1);
    assert("P"@.len() == 1);
    assert("Q"@.len() == 1);
    assert("R"@.len() == 1);
    assert("S"@.len() == 1);
    assert("T"@.len() == 1);
    assert("U"@.len() == 1);
    assert("V"@.len() == 1);
    assert("W"@.len() == 1);
    assert("X"@.len() == 1);
    assert("Y"@.len() == 1);
    assert("Z"@.len() == 1);
    assert("1"@.len() == 1);
    assert("2"@.len() == 1);
    assert("3"@.len() == 1);
    assert("4"@.len() == 1);
    assert("5"@.len() == 1);
    assert("6"@.len() == 1);
    assert("7"@.len() == 1);
    assert("8"@.len() == 1);
    assert("9"@.len() == 1);
    assert("0"@.len() == 1);
    assert("Enter"@.len() == 5);
    assert("Esc"@.len() == 3);
    assert("BKSP"@.len() == 4);
    assert("Tab"@.len() == 3);
    assert("Space"@.len() == 5);
    assert("Caps"@.len() == 4);
    assert("-"@.len() == 1);
    assert("="@.len() == 1);
    assert("["@.len() == 1);
    assert("]"@.len() == 1);
    assert("\\"@.len() == 1);
    assert(";"@.len() == 1);
    assert("'"@.len() == 1);
    assert("`"@.len() == 1);
    assert(","@.len() == 1);
    assert("."@.len() == 1);
    assert("/"@.len() == 1);
    assert("F1"@.len() == 2);
    assert("F2"@.len() == 2);
    assert("F3"@.len() == 2);
    assert("F4"@.len() == 2);
    assert("F5"@.len() == 2);
    assert("F6"@.len() == 2);
    assert("F7"@.len() == 2);
    assert("F8"@.len() == 2);
    assert("F9"@.len() == 2);
    assert("F10"@.len() == 3);
    assert("F11"@.len() == 3);
    assert("F12"@.len() == 3);
    assert("PrtSc"@.len() == 5);
    assert("ScrLk"@.len() == 5);
    assert("Pause"@.len() == 5);
    assert("Ins"@.len() == 3);
    assert("Home"@.len() == 4);
    assert("PgUp"@.len() == 4);
    assert("Del"@.len() == 3);
    assert("End"@.len() == 3);
    assert("PgDn"@.len() == 4);
    assert("→"@.len() == 1);
    assert("←"@.len() == 1);
    assert("↓"@.len() == 1);
    assert("↑"@.len() == 1);
    assert("L Ctrl"@.len() == 6);
    assert("L Shift"@.len() == 7);
    assert("L Alt"@.len() == 5);
    assert("L GUI"@.len() == 5);
    assert("R Ctrl"@.len() == 6);
    assert("R Shift"@.len() == 7);
    assert("R Alt"@.len() == 5);
    assert("R GUI"@.len() == 5);
    assert("NumLk"@.len() == 5);
    assert("Num /"@.len() == 5);
    assert("Num *"@.len() == 5);
    assert("Num -"@.len() == 5);
    assert("Num +"@.len() == 5);
    assert("Num Ent"@.len() == 7);
    assert("Num 1"@.len() == 5);
    assert("Num 2"@.len() == 5);
    assert("Num 3"@.len() == 5);
    assert("Num 4"@.len() == 5);
    assert("Num 5"@.len() == 5);
    assert("Num 6"@.len() == 5);
    assert("Num 7"@.len() == 5);
    assert("Num 8"@.len() == 5);
    assert("Num 9"@.len() == 5);
    assert("Num 0"@.len() == 5);
    assert("Num ."@.len() == 5);
    assert("Num ="@.len() == 5);
    assert("Vol+"@.len() == 4);
    assert("Vol-"@.len() == 4);
    assert("Mute"@.len() == 4);
    assert("Raise"@.len() == 5);
    assert("Lower"@.len() == 5);
    assert(""@.len() == 0);
    assert("App"@.len() == 3);
    assert("Power"@.len() == 5);
    assert("Enter"@[0] == 'E');
    assert("Num 7"@[0] == 'N');
    assert("Space"@[0] == 'S');
    assert("PrtSc"@[0] == 'P');
    assert("ScrLk"@[0] == 'S');
    assert("Pause"@[0] == 'P');
    assert("L Alt"@[0] == 'L');
    assert("L GUI"@[0] == 'L');
    assert("R Alt"@[0] == 'R');
    assert("R GUI"@[0] == 'R');
    assert("NumLk"@[3] == 'L');
    assert("Num 7"@[3] == ' ');
    assert("Num /"@[4] == '/');
    assert("Num 7"@[4] == '7');
    assert("Num *"@[4] == '*');
    assert("Num -"@[4] == '-');
    assert("Num +"@[4] == '+');
    assert("Num 1"@[4] == '1');
    assert("Num 2"@[4] == '2');
    assert("Num 3"@[4] == '3');
    assert("Num 4"@[4] == '4');
    assert("Num 5"@[4] == '5');
    assert("Num 6"@[4] == '6');
    assert("Num 8"@[0] == 'N');
    assert("Num 8"@[3] == ' ');
    assert("Num 8"@[4] == '8');
    assert("Num 9"@[0] == 'N');
    assert("Num 9"@[3] == ' ');
    assert("Num 9"@[4] == '9');
    assert("Num 0"@[0] == 'N');
    assert("Num 0"@[3] == ' ');
    assert("Num 0"@[4] == '0');
    assert("Num ."@[0] == 'N');
    assert("Num ."@[3] == ' ');
    assert("Num ."@[4] == '.');
    assert("Num ="@[0] == 'N');
    assert("Num ="@[3] == ' ');
    assert("Num ="@[4] == '=');
    assert("BKSP"@[0] == 'B');
    assert("Vol+"@[0] == 'V');
    assert("Caps"@[0] == 'C');
    assert("Home"@[0] == 'H');
    assert("PgUp"@[0] == 'P');
    assert("PgDn"@[0] == 'P');
    assert("Vol-"@[0] == 'V');
    assert("Vol+"@[3] == '+');
    assert("Vol-"@[3] == '-');
    assert("Mute"@[0] == 'M');
    assert("Raise"@[0] == 'R');
    assert("R Alt"@[1] == ' ');
    assert("Raise"@[1] == 'a');
    assert("R GUI"@[1] == ' ');
    assert("NumLk"@[0] == 'N');
    assert("Num /"@[0] == 'N');
    assert("Num *"@[0] == 'N');
    assert("Num -"@[0] == 'N');
    assert("Num +"@[0] == 'N');
    assert("Num 1"@[0] == 'N');
    assert("Num 2"@[0] == 'N');
    assert("Num 3"@[0] == 'N');
    assert("Num 4"@[0] == 'N');
    assert("Num 5"@[0] == 'N');
    assert("Num 6"@[0] == 'N');
    assert("Lower"@[0] == 'L');
    assert("L Alt"@[1] == ' ');
    assert("Lower"@[1] == 'o');
    assert("L GUI"@[1] == ' ');
    assert("Esc"@[0] == 'E');
    assert("App"@[0] == 'A');
    assert("Tab"@[0] == 'T');
    assert("F10"@[0] == 'F');
    assert("F11"@[0] == 'F');
    assert("F12"@[0] == 'F');
    assert("Ins"@[0] == 'I');
    assert("Del"@[0] == 'D');
    assert("End"@[0] == 'E');
    assert("Power"@[0] == 'P');
    assert("PrtSc"@[1] == 'r');
    assert("Power"@[1] == 'o');
    assert("Pause"@[1] == 'a');
    match c {
        KeyboardUsage::Keypad7Home => {
            assert(parse_label_view("Num 7"@) == KeyboardUsage::Keypad7Home);
        },
        KeyboardUsage::Keypad8UpArrow => {
            assert(parse_label_view("Num 8"@) == KeyboardUsage::Keypad8UpArrow);
        },
        KeyboardUsage::Keypad9PageUp => {
            assert(parse_label_view("Num 9"@) == KeyboardUsage::Keypad9PageUp);
        },
        KeyboardUsage::Keypad0Insert => {
            assert(parse_label_view("Num 0"@) == KeyboardUsage::Keypad0Insert);
        },
        KeyboardUsage::KeypadPeriodDelete => {
            assert(parse_label_view("Num ."@) == KeyboardUsage::KeypadPeriodDelete);
        },
        KeyboardUsage::KeypadEqual => {
            assert(parse_label_view("Num ="@) == KeyboardUsage::KeypadEqual);
        },
        KeyboardUsage::KeyboardVolumeUp => {
            assert(parse_label_view("Vol+"@) == KeyboardUsage::KeyboardVolumeUp);
        },
        KeyboardUsage::KeyboardVolumeDown => {
            assert(parse_label_view("Vol-"@) == KeyboardUsage::KeyboardVolumeDown);
        },
        KeyboardUsage::KeyboardMute => {
            assert(parse_label_view("Mute"@) == KeyboardUsage::KeyboardMute);
        },
        KeyboardUsage::KeyboardRaise => {
            assert(parse_label_view("Raise"@) == KeyboardUsage::KeyboardRaise);
        },
        KeyboardUsage::KeyboardLower => {
            assert(parse_label_view("Lower"@) == KeyboardUsage::KeyboardLower);
        },
        KeyboardUsage::KeyboardEmpty => {
            assert(parse_label_view(""@) == KeyboardUsage::KeyboardEmpty);
        },
        KeyboardUsage::KeyboardApplication => {
            assert(parse_label_view("App"@) == KeyboardUsage::KeyboardApplication);
        },
        KeyboardUsage::KeyboardPower => {
            assert(parse_label_view("Power"@) == KeyboardUsage::KeyboardPower);
        },
        _ => {},
    }
}

/// Every label resolves back to the variant it labels: the reverse lookup
/// inverts the label table.
pub proof fn lemma_label_parse_round_trip(c: KeyboardUsage)
    requires
        label_opt(c) is Some,
    ensures
        parse_label_view(label_view(c)) == c,
{
    match c {
        KeyboardUsage::KeyboardAa => parse_round_trip_part0(c),
        KeyboardUsage::KeyboardBb => parse_round_trip_part0(c),
        KeyboardUsage::KeyboardCc => parse_round_trip_part0(c),
        KeyboardUsage::KeyboardDd => parse_round_trip_part0(c),
        KeyboardUsage::KeyboardEe => parse_round_trip_part0(c),
        KeyboardUsage::KeyboardFf => parse_round_trip_part0(c),
        KeyboardUsage::KeyboardGg => parse_round_trip_part0(c),
        KeyboardUsage::KeyboardHh => parse_round_trip_part0(c),
        KeyboardUsage::KeyboardIi => parse_round_trip_part0(c),
        KeyboardUsage::KeyboardJj => parse_round_trip_part0(c),
        KeyboardUsage::KeyboardKk => parse_round_trip_part0(c),
        KeyboardUsage::KeyboardLl => parse_round_trip_part0(c),
        KeyboardUsage::KeyboardMm => parse_round_trip_part0(c),
        KeyboardUsage::KeyboardNn => parse_round_trip_part0(c),
        KeyboardUsage::KeyboardOo => parse_round_trip_part1(c),
        KeyboardUsage::KeyboardPp => parse_round_trip_part1(c),
        KeyboardUsage::KeyboardQq => parse_round_trip_part1(c),
        KeyboardUsage::KeyboardRr => parse_round_trip_part1(c),
        KeyboardUsage::KeyboardSs => parse_round_trip_part1(c),
        KeyboardUsage::KeyboardTt => parse_round_trip_part1(c),
        KeyboardUsage::KeyboardUu => parse_round_trip_part1(c),
        KeyboardUsage::KeyboardVv => parse_round_trip_part1(c),
        KeyboardUsage::KeyboardWw => parse_round_trip_part1(c),
        KeyboardUsage::KeyboardXx => parse_round_trip_part1(c),
        KeyboardUsage::KeyboardYy => parse_round_trip_part1(c),
        KeyboardUsage::KeyboardZz => parse_round_trip_part1(c),
        KeyboardUsage::Keyboard1Exclamation => parse_round_trip_part1(c),
        KeyboardUsage::Keyboard2At => parse_round_trip_part1(c),
        KeyboardUsage::Keyboard3Hash => parse_round_trip_part2(c),
        KeyboardUsage::Keyboard4Dollar => parse_round_trip_part2(c),
        KeyboardUsage::Keyboard5Percent => parse_round_trip_part2(c),
        KeyboardUsage::Keyboard6Caret => parse_round_trip_part2(c),
        KeyboardUsage::Keyboard7Ampersand => parse_round_trip_part2(c),
        KeyboardUsage::Keyboard8Asterisk => parse_round_trip_part2(c),
        KeyboardUsage::Keyboard9OpenParens => parse_round_trip_part2(c),
        KeyboardUsage::Keyboard0CloseParens => parse_round_trip_part2(c),
        KeyboardUsage::KeyboardEnter => parse_round_trip_part2(c),
        KeyboardUsage::KeyboardEscape => parse_round_trip_part2(c),
        KeyboardUsage::KeyboardBackspace => parse_round_trip_part2(c),
        KeyboardUsage::KeyboardTab => parse_round_trip_part2(c),
        KeyboardUsage::KeyboardSpacebar => parse_round_trip_part2(c),
        KeyboardUsage::KeyboardCapsLock => parse_round_trip_part2(c),
        KeyboardUsage::KeyboardDashUnderscore => parse_round_trip_part3(c),
        KeyboardUsage::KeyboardEqualPlus => parse_round_trip_part3(c),
        KeyboardUsage::KeyboardOpenBracketBrace => parse_round_trip_part3(c),
        KeyboardUsage::KeyboardCloseBracketBrace => parse_round_trip_part3(c),
        KeyboardUsage::KeyboardBackslashBar => parse_round_trip_part3(c),
        KeyboardUsage::KeyboardSemiColon => parse_round_trip_part3(c),
        KeyboardUsage::KeyboardSingleDoubleQuote => parse_round_trip_part3(c),
        KeyboardUsage::KeyboardBacktickTilde => parse_round_trip_part3(c),
        KeyboardUsage::KeyboardCommaLess => parse_round_trip_part3(c),
        KeyboardUsage::KeyboardPeriodGreater => parse_round_trip_part3(c),
        KeyboardUsage::KeyboardSlashQuestion => parse_round_trip_part3(c),
        KeyboardUsage::KeyboardF1 => parse_round_trip_part3(c),
        KeyboardUsage::KeyboardF2 => parse_round_trip_part3(c),
        KeyboardUsage::KeyboardF3 => parse_round_trip_part3(c),
        KeyboardUsage::KeyboardF4 => parse_round_trip_part4(c),
        KeyboardUsage::KeyboardF5 => parse_round_trip_part4(c),
        KeyboardUsage::KeyboardF6 => parse_round_trip_part4(c),
        KeyboardUsage::KeyboardF7 => parse_round_trip_part4(c),
        KeyboardUsage::KeyboardF8 => parse_round_trip_part4(c),
        KeyboardUsage::KeyboardF9 => parse_round_trip_part4(c),
        KeyboardUsage::KeyboardF10 => parse_round_trip_part4(c),
        KeyboardUsage::KeyboardF11 => parse_round_trip_part4(c),
        KeyboardUsage::KeyboardF12 => parse_round_trip_part4(c),
        KeyboardUsage::KeyboardPrintScreen => parse_round_trip_part4(c),
        KeyboardUsage::KeyboardScrollLock => parse_round_trip_part4(c),
        KeyboardUsage::KeyboardPause => parse_round_trip_part4(c),
        KeyboardUsage::KeyboardInsert => parse_round_trip_part4(c),
        KeyboardUsage::KeyboardHome => parse_round_trip_part4(c),
        KeyboardUsage::KeyboardPageUp => parse_round_trip_part5(c),
        KeyboardUsage::KeyboardDelete => parse_round_trip_part5(c),
        KeyboardUsage::KeyboardEnd => parse_round_trip_part5(c),
        KeyboardUsage::KeyboardPageDown => parse_round_trip_part5(c),
        KeyboardUsage::KeyboardRightArrow => parse_round_trip_part5(c),
        KeyboardUsage::KeyboardLeftArrow => parse_round_trip_part5(c),
        KeyboardUsage::KeyboardDownArrow => parse_round_trip_part5(c),
        KeyboardUsage::KeyboardUpArrow => parse_round_trip_part5(c),
        KeyboardUsage::KeyboardLeftControl => parse_round_trip_part5(c),
        KeyboardUsage::KeyboardLeftShift => parse_round_trip_part5(c),
        KeyboardUsage::KeyboardLeftAlt => parse_round_trip_part5(c),
        KeyboardUsage::KeyboardLeftGUI => parse_round_trip_part5(c),
        KeyboardUsage::KeyboardRightControl => parse_round_trip_part5(c),
        KeyboardUsage::KeyboardRightShift => parse_round_trip_part5(c),
        KeyboardUsage::KeyboardRightAlt => parse_round_trip_part6(c),
        KeyboardUsage::KeyboardRightGUI => parse_round_trip_part6(c),
        KeyboardUsage::KeypadNumLock => parse_round_trip_part6(c),
        KeyboardUsage::KeypadDivide => parse_round_trip_part6(c),
        KeyboardUsage::KeypadMultiply => parse_round_trip_part6(c),
        KeyboardUsage::KeypadMinus => parse_round_trip_part6(c),
        KeyboardUsage::KeypadPlus => parse_round_trip_part6(c),
        KeyboardUsage::KeypadEnter => parse_round_trip_part6(c),
        KeyboardUsage::Keypad1End => parse_round_trip_part6(c),
        KeyboardUsage::Keypad2DownArrow => parse_round_trip_part6(c),
        KeyboardUsage::Keypad3PageDown => parse_round_trip_part6(c),
        KeyboardUsage::Keypad4LeftArrow => parse_round_trip_part6(c),
        KeyboardUsage::Keypad5 => parse_round_trip_part6(c),
        KeyboardUsage::Keypad6RightArrow => parse_round_trip_part6(c),
        KeyboardUsage::Keypad7Home => parse_round_trip_part7(c),
        KeyboardUsage::Keypad8UpArrow => parse_round_trip_part7(c),
        KeyboardUsage::Keypad9PageUp => parse_round_trip_part7(c),
        KeyboardUsage::Keypad0Insert => parse_round_trip_part7(c),
        KeyboardUsage::KeypadPeriodDelete => parse_round_trip_part7(c),
        KeyboardUsage::KeypadEqual => parse_round_trip_part7(c),
        KeyboardUsage::KeyboardVolumeUp => parse_round_trip_part7(c),
        KeyboardUsage::KeyboardVolumeDown => parse_round_trip_part7(c),
        KeyboardUsage::KeyboardMute => parse_round_trip_part7(c),
        KeyboardUsage::KeyboardRaise => parse_round_trip_part7(c),
        KeyboardUsage::KeyboardLower => parse_round_trip_part7(c),
        KeyboardUsage::KeyboardEmpty => parse_round_trip_part7(c),
        KeyboardUsage::KeyboardApplication => parse_round_trip_part7(c),
        KeyboardUsage::KeyboardPower => parse_round_trip_part7(c),
        _ => {},
    }
}

impl vstd::std_specs::convert::FromSpecImpl<u8> for KeyboardUsage {
    open spec fn obeys_from_spec() -> bool {
        true
    }

    open spec fn from_spec(v: u8) -> KeyboardUsage {
        usage_of_byte(v)
    }
}

impl From<u8> for KeyboardUsage {
    /// Decode a byte into its symbolic code.
    fn from(v: u8) -> (r: KeyboardUsage) {
        KeyboardUsage::decode_byte(v)
    }
}

impl<'a> vstd::std_specs::convert::FromSpecImpl<&'a str> for KeyboardUsage {
    open spec fn obeys_from_spec() -> bool {
        true
    }

    open spec fn from_spec(v: &'a str) -> KeyboardUsage {
        parse_label_view(v@)
    }
}

impl<'a> From<&'a str> for KeyboardUsage {
    /// Resolve a label to its symbolic code.
    fn from(v: &'a str) -> (r: KeyboardUsage) {
        KeyboardUsage::parse_label(v)
    }
}

impl vstd::std_specs::convert::FromSpecImpl<String> for KeyboardUsage {
    open spec fn obeys_from_spec() -> bool {
        true
    }

    open spec fn from_spec(v: String) -> KeyboardUsage {
        parse_label_view(v@)
    }
}

impl From<String> for KeyboardUsage {
    /// Resolve an owned label to its symbolic code.
    fn from(v: String) -> (r: KeyboardUsage) {
        KeyboardUsage::parse_label(v.as_str())
    }
}

} // verus!
