//! The colour picker's own state: its drags, its hex entry, and when it reports a
//! change or commits one. Colours are numbered by the host.
use vstd::prelude::*;

use crate::model::Handle;
use crate::strings::chars_of;

verus! {

/// The parts of the picker that are dragged.
#[derive(Clone, Copy, Debug, PartialEq, Eq, Structural)]
pub enum Strip {
    Square,
    Hue,
    Alpha,
}

/// The state of an open picker; `hsv` and `alpha` number its colour.
#[derive(Debug)]
pub struct PickerState {
    pub hsv: Handle,
    pub alpha: Handle,
    pub hex_draft: String,
    pub hex_error: bool,
    pub dragging_square: bool,
    pub dragging_hue: bool,
    pub dragging_alpha: bool,
}

/// What a hex entry spells.
#[derive(Clone, Copy, Debug, PartialEq, Eq, Structural)]
pub struct ParsedHex {
    pub hsv: Handle,
    pub alpha: Handle,
}

/// `text` without the number signs in front.
pub open spec fn without_signs(text: Seq<char>) -> Seq<char>
    decreases text.len(),
{
    if text.len() > 0 && text[0] == '#' {
        without_signs(text.drop_first())
    } else {
        text
    }
}

/// How many bytes a character takes.
pub open spec fn byte_len(c: char) -> nat {
    if c as u32 <= 0x7f {
        1
    } else if c as u32 <= 0x7ff {
        2
    } else if c as u32 <= 0xffff {
        3
    } else {
        4
    }
}

pub open spec fn bytes_len(text: Seq<char>) -> nat
    decreases text.len(),
{
    if text.len() == 0 {
        0
    } else {
        bytes_len(text.drop_last()) + byte_len(text.last())
    }
}

/// Whether a hex entry spells an alpha: it has eight bytes behind its signs.
pub open spec fn spells_alpha(text: Seq<char>) -> bool {
    bytes_len(without_signs(text)) == 8
}

/// Whether a hex entry spells an alpha.
pub fn hex_has_alpha(text: &str) -> (r: bool)
    ensures
        r == spells_alpha(text@),
{
    let v = chars_of(text);
    let mut from: usize = 0;
    assert(v@.skip(0) =~= v@);
    while from < v.len() && v[from] == '#'
        invariant
            from <= v@.len(),
            without_signs(text@) == without_signs(v@.skip(from as int)),
        decreases v.len() - from,
    {
        assert(v@.skip(from as int).drop_first() =~= v@.skip(from + 1));
        from = from + 1;
    }
    let ghost rest = v@.skip(from as int);
    let mut len: u128 = 0;
    let mut i: usize = from;
    assert(rest.take(0) =~= Seq::empty());
    while i < v.len()
        invariant
            from <= i <= v@.len(),
            rest == v@.skip(from as int),
            len == bytes_len(rest.take(i - from)),
            len <= 4 * (i - from),
        decreases v.len() - i,
    {
        assert(rest.take(i + 1 - from).drop_last() =~= rest.take(i - from));
        assert(rest.take(i + 1 - from).last() == v@[i as int]);
        let c = v[i] as u32;
        assert(i < usize::MAX);
        len = len + if c <= 0x7f {
            1
        } else if c <= 0x7ff {
            2
        } else if c <= 0xffff {
            3
        } else {
            4
        };
        i = i + 1;
    }
    assert(rest.take(i - from) =~= rest);
    len == 8
}

impl PickerState {
    /// A picker on a colour, whose hex text is `hex`.
    pub fn from_color(hsv: Handle, alpha: Handle, hex: String) -> (r: PickerState)
        ensures
            r == (PickerState {
                hsv,
                alpha,
                hex_draft: hex,
                hex_error: false,
                dragging_square: false,
                dragging_hue: false,
                dragging_alpha: false,
            }),
    {
        PickerState {
            hsv,
            alpha,
            hex_draft: hex,
            hex_error: false,
            dragging_square: false,
            dragging_hue: false,
            dragging_alpha: false,
        }
    }

    pub open spec fn drags(self, strip: Strip) -> bool {
        match strip {
            Strip::Square => self.dragging_square,
            Strip::Hue => self.dragging_hue,
            Strip::Alpha => self.dragging_alpha,
        }
    }

    pub open spec fn with_drag(self, strip: Strip, on: bool) -> PickerState {
        match strip {
            Strip::Square => PickerState { dragging_square: on, ..self },
            Strip::Hue => PickerState { dragging_hue: on, ..self },
            Strip::Alpha => PickerState { dragging_alpha: on, ..self },
        }
    }

    /// A press on a part: its drag begins. The host picks the colour below it.
    pub fn press(&mut self, strip: Strip)
        ensures
            *final(self) == old(self).with_drag(strip, true),
    {
        match strip {
            Strip::Square => {
                self.dragging_square = true;
            },
            Strip::Hue => {
                self.dragging_hue = true;
            },
            Strip::Alpha => {
                self.dragging_alpha = true;
            },
        }
    }

    /// Whether a move over a part picks the colour below it.
    pub fn is_dragging(&self, strip: Strip) -> (r: bool)
        ensures
            r == self.drags(strip),
    {
        match strip {
            Strip::Square => self.dragging_square,
            Strip::Hue => self.dragging_hue,
            Strip::Alpha => self.dragging_alpha,
        }
    }

    /// A release over a part: whether its drag ended, whose colour is committed.
    pub fn release(&mut self, strip: Strip) -> (r: bool)
        ensures
            r == old(self).drags(strip),
            *final(self) == old(self).with_drag(strip, false),
    {
        let ended = self.is_dragging(strip);
        match strip {
            Strip::Square => {
                self.dragging_square = false;
            },
            Strip::Hue => {
                self.dragging_hue = false;
            },
            Strip::Alpha => {
                self.dragging_alpha = false;
            },
        }
        ended
    }

    /// A colour was picked, on the square, the hue strip or a swatch; `hex` is its
    /// text. The alpha stays.
    pub fn set_color(&mut self, hsv: Handle, hex: String)
        ensures
            *final(self) == (PickerState { hsv, hex_draft: hex, hex_error: false, ..*old(self) }),
    {
        self.hsv = hsv;
        self.hex_draft = hex;
        self.hex_error = false;
    }

    /// An alpha was picked; the hex text stays.
    pub fn set_alpha(&mut self, alpha: Handle)
        ensures
            *final(self) == (PickerState { alpha, ..*old(self) }),
    {
        self.alpha = alpha;
    }

    /// A hex text was typed, which spells `parsed`, if anything: whether the colour
    /// changed. Its alpha counts only where it is spelled.
    pub fn hex_typed(&mut self, text: String, parsed: Option<ParsedHex>) -> (r: bool)
        ensures
            r == (parsed is Some),
            *final(self) == (match parsed {
                Some(c) => PickerState {
                    hsv: c.hsv,
                    alpha: if spells_alpha(text@) {
                        c.alpha
                    } else {
                        old(self).alpha
                    },
                    hex_draft: text,
                    hex_error: false,
                    ..*old(self)
                },
                None => PickerState { hex_draft: text, hex_error: true, ..*old(self) },
            }),
    {
        let spelled = hex_has_alpha(&text);
        self.hex_draft = text;
        match parsed {
            Some(c) => {
                self.hex_error = false;
                self.hsv = c.hsv;
                if spelled {
                    self.alpha = c.alpha;
                }
                true
            },
            None => {
                self.hex_error = true;
                false
            },
        }
    }

    /// Whether a click on the preview commits the colour: unless the hex text
    /// spells none.
    pub fn may_commit(&self) -> (r: bool)
        ensures
            r == !self.hex_error,
    {
        !self.hex_error
    }
}

} // verus!
