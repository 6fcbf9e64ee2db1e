//! The envelope in which a client sends a request.
//!
//! A request is a JSON object with a member `event`, which names the
//! request, and a member `data`.  A move carries in `data` the members
//! `from`, `to` and `flag` and, where they apply, `captured` and
//! `promotion`; the other requests carry nothing.  The first frame of a
//! connection is an object with the member `token` instead.

use crate::model::{ErrorKind, Move, MoveView, clone_opt_text, opt_text};
use crate::text::same_text;
use vstd::prelude::*;
use vstd::string::*;

verus! {

/// The text of the string found in the JSON document `text` at the place
/// that the JSON pointer `pointer` names; nothing if `text` is no JSON
/// document, if the pointer names no place in it, or if what stands there is
/// not a string.
pub uninterp spec fn json_string_at(text: Seq<char>, pointer: Seq<char>) -> Option<Seq<char>>;

/// Calls `serde_json::from_str` for a `serde_json::Value`, then
/// `Value::pointer` and `Value::as_str` on what was found.  The claim: the
/// three return on every input, and the string they yield depends on the
/// text and the pointer alone.
#[verifier::external_body]
pub(crate) fn json_text_at(text: &str, pointer: &str) -> (r: Option<String>)
    ensures
        opt_text(r) == json_string_at(text@, pointer@),
{
    let value: serde_json::Value = match serde_json::from_str(text) {
        Ok(v) => v,
        Err(_) => return None,
    };
    match value.pointer(pointer) {
        Some(found) => match found.as_str() {
            Some(s) => Some(s.to_string()),
            None => None,
        },
        None => None,
    }
}

/// A request of a client, once its envelope has been read.
#[derive(Debug)]
pub enum ProtocolEvent {
    Move(Move),
    Surrender,
    OfferDraw,
    AcceptDraw,
    DeclineDraw,
    Reminder,
}

/// The mathematical value of a [`ProtocolEvent`].
pub enum ProtocolEventView {
    Move(MoveView),
    Surrender,
    OfferDraw,
    AcceptDraw,
    DeclineDraw,
    Reminder,
}

impl View for ProtocolEvent {
    type V = ProtocolEventView;

    open spec fn view(&self) -> ProtocolEventView {
        match self {
            ProtocolEvent::Move(m) => ProtocolEventView::Move(m@),
            ProtocolEvent::Surrender => ProtocolEventView::Surrender,
            ProtocolEvent::OfferDraw => ProtocolEventView::OfferDraw,
            ProtocolEvent::AcceptDraw => ProtocolEventView::AcceptDraw,
            ProtocolEvent::DeclineDraw => ProtocolEventView::DeclineDraw,
            ProtocolEvent::Reminder => ProtocolEventView::Reminder,
        }
    }
}

/// The value of a request that was read or refused.
pub open spec fn event_view(r: Result<ProtocolEvent, ErrorKind>) -> Result<
    ProtocolEventView,
    ErrorKind,
> {
    match r {
        Ok(e) => Ok(e@),
        Err(k) => Err(k),
    }
}

/// The members of an envelope that the server reads, each present only if
/// the envelope holds a string there.
pub struct EnvelopeParts {
    pub event: Option<String>,
    pub from: Option<String>,
    pub to: Option<String>,
    pub flag: Option<String>,
    pub captured: Option<String>,
    pub promotion: Option<String>,
}

/// The mathematical value of [`EnvelopeParts`].
pub struct EnvelopePartsView {
    pub event: Option<Seq<char>>,
    pub from: Option<Seq<char>>,
    pub to: Option<Seq<char>>,
    pub flag: Option<Seq<char>>,
    pub captured: Option<Seq<char>>,
    pub promotion: Option<Seq<char>>,
}

impl View for EnvelopeParts {
    type V = EnvelopePartsView;

    open spec fn view(&self) -> EnvelopePartsView {
        EnvelopePartsView {
            event: opt_text(self.event),
            from: opt_text(self.from),
            to: opt_text(self.to),
            flag: opt_text(self.flag),
            captured: opt_text(self.captured),
            promotion: opt_text(self.promotion),
        }
    }
}

/// The members that the envelope `text` holds.
pub open spec fn parts_of(text: Seq<char>) -> EnvelopePartsView {
    EnvelopePartsView {
        event: json_string_at(text, "/event"@),
        from: json_string_at(text, "/data/from"@),
        to: json_string_at(text, "/data/to"@),
        flag: json_string_at(text, "/data/flag"@),
        captured: json_string_at(text, "/data/captured"@),
        promotion: json_string_at(text, "/data/promotion"@),
    }
}

/// The request that an envelope with the members `p` makes.  An envelope
/// without an event, or with an event outside the six known ones, is a
/// protocol error; so is a move that lacks one of `from`, `to` and `flag`.
pub open spec fn event_of(p: EnvelopePartsView) -> Result<ProtocolEventView, ErrorKind> {
    match p.event {
        None => Err(ErrorKind::ProtocolError),
        Some(name) => if name == "game_move"@ {
            match (p.from, p.to, p.flag) {
                (Some(from), Some(to), Some(flags)) => Ok(
                    ProtocolEventView::Move(
                        MoveView { from, to, flags, captured: p.captured, promotion: p.promotion },
                    ),
                ),
                _ => Err(ErrorKind::ProtocolError),
            }
        } else if name == "game_surrender"@ {
            Ok(ProtocolEventView::Surrender)
        } else if name == "game_offer_draw"@ {
            Ok(ProtocolEventView::OfferDraw)
        } else if name == "game_accept_draw"@ {
            Ok(ProtocolEventView::AcceptDraw)
        } else if name == "game_decline_draw"@ {
            Ok(ProtocolEventView::DeclineDraw)
        } else if name == "game_reminder"@ {
            Ok(ProtocolEventView::Reminder)
        } else {
            Err(ErrorKind::ProtocolError)
        },
    }
}

/// Decides which request an envelope with the members `p` makes.
pub fn event_from_parts(p: &EnvelopeParts) -> (r: Result<ProtocolEvent, ErrorKind>)
    ensures
        event_view(r) == event_of(p@),
{
    let name = match &p.event {
        Some(name) => name.as_str(),
        None => {
            return Err(ErrorKind::ProtocolError);
        },
    };
    if same_text(name, "game_move") {
        match (&p.from, &p.to, &p.flag) {
            (Some(from), Some(to), Some(flag)) => Ok(
                ProtocolEvent::Move(
                    Move {
                        from: from.clone(),
                        to: to.clone(),
                        flags: flag.clone(),
                        captured: clone_opt_text(&p.captured),
                        promotion: clone_opt_text(&p.promotion),
                    },
                ),
            ),
            _ => Err(ErrorKind::ProtocolError),
        }
    } else if same_text(name, "game_surrender") {
        Ok(ProtocolEvent::Surrender)
    } else if same_text(name, "game_offer_draw") {
        Ok(ProtocolEvent::OfferDraw)
    } else if same_text(name, "game_accept_draw") {
        Ok(ProtocolEvent::AcceptDraw)
    } else if same_text(name, "game_decline_draw") {
        Ok(ProtocolEvent::DeclineDraw)
    } else if same_text(name, "game_reminder") {
        Ok(ProtocolEvent::Reminder)
    } else {
        Err(ErrorKind::ProtocolError)
    }
}

/// Reads from an envelope the members that the server looks at.
pub fn read_parts(text: &str) -> (p: EnvelopeParts)
    ensures
        p@ == parts_of(text@),
{
    EnvelopeParts {
        event: json_text_at(text, "/event"),
        from: json_text_at(text, "/data/from"),
        to: json_text_at(text, "/data/to"),
        flag: json_text_at(text, "/data/flag"),
        captured: json_text_at(text, "/data/captured"),
        promotion: json_text_at(text, "/data/promotion"),
    }
}

/// Reads the request that the envelope `text` makes.
pub fn parse_event(text: &str) -> (r: Result<ProtocolEvent, ErrorKind>)
    ensures
        event_view(r) == event_of(parts_of(text@)),
{
    let p = read_parts(text);
    event_from_parts(&p)
}

/// The credential that the first frame `text` of a connection carries: the
/// string at its member `token`.
pub open spec fn token_of(text: Seq<char>) -> Option<Seq<char>> {
    json_string_at(text, "/token"@)
}

/// Reads the credential from the first frame of a connection.
pub fn read_token(text: &str) -> (r: Option<String>)
    ensures
        opt_text(r) == token_of(text@),
{
    json_text_at(text, "/token")
}

} // verus!
