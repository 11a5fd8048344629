use vstd::prelude::*;
use crate::BrowserId;

verus! {

/// Engine-defined mouse cursor kind, carried to the host unchanged; a
/// cursor change is a global notification, tied to no browsing context.
#[derive(Clone, Copy, PartialEq, Eq, Structural, Debug)]
pub struct Cursor {
    pub code: u8,
}

/// Engine-defined key identity, carried to the host unchanged. The engine
/// fixes the code's meaning; this adapter only transports it.
#[derive(Clone, Copy, PartialEq, Eq, Structural, Debug)]
pub struct Key {
    pub code: u32,
}

/// Modifier keys held during a key event, as a bit set fixed by the engine;
/// the adapter transports the bits without interpreting them.
#[derive(Clone, Copy, PartialEq, Eq, Structural, Debug)]
pub struct KeyModifiers {
    pub bits: u8,
}

/// One session-history entry as the engine reports it: the entry's URL.
#[derive(Clone, PartialEq, Eq, Debug)]
pub struct HistoryEntry {
    pub url: String,
}

/// Stands for the reply channel of one pending navigation request. The host
/// answers the request through the channel this token names; the adapter
/// never answers on the host's behalf, so a token that is never answered
/// leaves that navigation pending and changes nothing else.
#[derive(Clone, Copy, PartialEq, Eq, Structural, Debug)]
pub struct NavigationReplyToken {
    pub token: u64,
}

/// The closed set of engine-to-host notifications the host may observe.
/// Each context-specific event carries the originating browsing context;
/// a cursor change is global, and a key event may arrive without a context.
/// Events are immutable once constructed: ownership moves into the queue on
/// push and out on drain.
#[derive(Clone, Debug)]
pub enum BrowserEvent {
    SetWindowInnerSize(BrowserId, u32, u32),
    SetWindowPosition(BrowserId, i32, i32),
    SetFullScreenState(BrowserId, bool),
    TitleChanged(BrowserId, Option<String>),
    StatusChanged(BrowserId, Option<String>),
    LoadStart(BrowserId),
    LoadEnd(BrowserId),
    LoadError(BrowserId, String),
    HeadParsed(BrowserId),
    HistoryChanged(BrowserId, Vec<HistoryEntry>, usize),
    CursorChanged(Cursor),
    FaviconChanged(BrowserId, String),
    Key(Option<BrowserId>, Option<char>, Key, KeyModifiers),
    AllowNavigation(BrowserId, String, NavigationReplyToken),
}

} // verus!
