//! The display driver: the command sequences of each operation, and the
//! addressing mode that the controller has been set to.
use vstd::prelude::*;
use vstd::std_specs::iter::IteratorSpec;

use crate::command::{command_byte, mode_byte, AddressingMode, Command};
use crate::error::OledError;
use crate::font::{bitmap, glyph, has_glyph};
use crate::frame::{
    bulk_writes, bulk_writes_spec, command, command_write, command_writes, data, data_write,
    writes_view, BusWrite,
};
use crate::render::{render, render_spec, BITMAP_LEN, IMAGE_LEN};
use crate::{OLED_PAGES, OLED_WIDTH};

verus! {

/// The contrast that `init` sets.
pub const DEFAULT_CONTRAST: u8 = 0x7f;

/// The configuration sequence that `init` sends, with the given contrast.
pub open spec fn init_commands(contrast: u8) -> Seq<u8> {
    seq![
        command_byte(Command::DisplayOff),
        0x00u8,  // lower column address
        0x10u8,  // higher column address
        0x40u8,  // display start line
        0xb0u8,  // page address
        command_byte(Command::SetContrast),
        contrast,
        0xa1u8,  // segment remap
        command_byte(Command::NormalDisplay),
        0xa8u8,  // multiplex ratio
        0x3fu8,  // duty 1/64
        0xc8u8,  // remapped COM scan direction
        0xd3u8,  // display offset
        0x00u8,  // no offset
        0xd5u8,  // display clock division
        0x80u8,  // divide ratio
        0xd9u8,  // pre-charge period
        0xf1u8,
        0xdau8,  // COM pins
        0x12u8,
        0xdbu8,  // vcomh deselect level
        0x40u8,
        0x8du8,  // charge pump state
        0x14u8,  // charge pump enabled
        command_byte(Command::DisplayOn),
    ]
}

/// The commands that select an addressing mode.
pub open spec fn mode_commands(mode: AddressingMode) -> Seq<u8> {
    seq![command_byte(Command::SetAddressingMode), mode_byte(mode)]
}

/// The commands that put the cursor at text cell `column` of page `row`:
/// the page, then the low and the high nibble of the pixel column
/// `8 * column`, each in the low nibble of its own command byte.
pub open spec fn text_xy_commands(column: u8, row: u8) -> Seq<u8> {
    seq![
        (0xb0 + row) as u8,
        ((8 * column) % 16) as u8,
        (0x10 + (8 * column) / 16) as u8,
    ]
}

/// A blank screen in the controller's bitmap layout.
pub open spec fn blank_screen() -> Seq<u8> {
    Seq::new(BITMAP_LEN as nat, |i: int| 0u8)
}

/// The writes of `clear_display`: display off, cursor home, a blank
/// bitmap of the whole screen, display on.
pub open spec fn clear_writes() -> Seq<(u8, Seq<u8>)> {
    seq![command_write(command_byte(Command::DisplayOff))] + command_writes(text_xy_commands(0, 0))
        + bulk_writes_spec(blank_screen()) + seq![command_write(command_byte(Command::DisplayOn))]
}

/// The writes of `init_with_contrast`.
pub open spec fn init_writes(contrast: u8) -> Seq<(u8, Seq<u8>)> {
    command_writes(init_commands(contrast)) + command_writes(mode_commands(AddressingMode::Horizontal))
        + clear_writes()
}

/// The writes of `draw_image` for an image of the right size.
pub open spec fn image_writes(image: Seq<u8>, threshold: u8) -> Seq<(u8, Seq<u8>)> {
    command_writes(text_xy_commands(0, 0)) + bulk_writes_spec(render_spec(image, threshold))
}

/// The writes of `put_char` for a character of the font.
pub open spec fn char_writes(c: char) -> Seq<(u8, Seq<u8>)> {
    bulk_writes_spec(glyph(c))
}

/// The writes of `put_char` for each character of `chars`, in order.
pub open spec fn string_writes(chars: Seq<char>) -> Seq<(u8, Seq<u8>)>
    decreases chars.len(),
{
    if chars.len() == 0 {
        seq![]
    } else {
        string_writes(chars.drop_last()) + char_writes(chars.last())
    }
}

/// Writing a string is writing its parts one after the other: the writes
/// for `s + t` are those for `s` followed by those for `t`, with nothing
/// between them (in particular no cursor command).
pub proof fn lemma_string_writes_append(s: Seq<char>, t: Seq<char>)
    ensures
        string_writes(s + t) == string_writes(s) + string_writes(t),
    decreases t.len(),
{
    if t.len() == 0 {
        assert(s + t =~= s);
        assert(string_writes(s) + string_writes(t) =~= string_writes(s));
    } else {
        lemma_string_writes_append(s, t.drop_last());
        assert((s + t).drop_last() =~= s + t.drop_last());
        assert((s + t).last() == t.last());
        assert(string_writes(s + t) =~= string_writes(s) + string_writes(t));
    }
}

/// The driver of one display. Each operation appends the block writes it
/// takes to the driver's outbox, in the order the controller must receive
/// them; `take_writes` hands them over for the bus.
pub struct Oled {
    mode: AddressingMode,
    outbox: Vec<BusWrite>,
}

impl Oled {
    /// The writes queued and not yet taken.
    pub closed spec fn pending(&self) -> Seq<(u8, Seq<u8>)> {
        writes_view(self.outbox@)
    }

    /// The addressing mode that the controller has last been set to.
    pub closed spec fn addressing_mode(&self) -> AddressingMode {
        self.mode
    }

    /// A driver for a controller fresh from reset, in page addressing mode,
    /// with nothing queued.
    pub fn new() -> (r: Oled)
        ensures
            r.pending() == Seq::<(u8, Seq<u8>)>::empty(),
            r.addressing_mode() == AddressingMode::Page,
    {
        let r = Oled { mode: AddressingMode::Page, outbox: Vec::new() };
        assert(r.pending() =~= Seq::<(u8, Seq<u8>)>::empty());
        r
    }

    /// The addressing mode that the controller has last been set to.
    pub fn mode(&self) -> (r: AddressingMode)
        ensures
            r == self.addressing_mode(),
    {
        self.mode
    }

    /// Hands over the queued writes, in order, and empties the outbox.
    pub fn take_writes(&mut self) -> (r: Vec<BusWrite>)
        ensures
            writes_view(r@) == old(self).pending(),
            final(self).pending() == Seq::<(u8, Seq<u8>)>::empty(),
            final(self).addressing_mode() == old(self).addressing_mode(),
    {
        let mut r: Vec<BusWrite> = Vec::new();
        std::mem::swap(&mut r, &mut self.outbox);
        assert(self.pending() =~= Seq::<(u8, Seq<u8>)>::empty());
        r
    }

    fn queue(&mut self, w: BusWrite)
        ensures
            final(self).pending() == old(self).pending().push(w@),
            final(self).addressing_mode() == old(self).addressing_mode(),
    {
        self.outbox.push(w);
        assert(self.pending() =~= old(self).pending().push(w@));
    }

    /// Sends a command or command argument to the display's command parser.
    pub fn send_command(&mut self, byte: u8)
        ensures
            final(self).pending() == old(self).pending().push(command_write(byte)),
            final(self).addressing_mode() == old(self).addressing_mode(),
    {
        self.queue(command(byte));
    }

    /// Sends one data byte to display RAM at the controller's current
    /// pointer; the pointer then advances as the addressing mode says.
    /// Bit 0 of the byte is the top row of the page, bit 7 the bottom one.
    pub fn send_data(&mut self, byte: u8)
        ensures
            final(self).pending() == old(self).pending().push(data_write(byte)),
            final(self).addressing_mode() == old(self).addressing_mode(),
    {
        self.queue(data(byte));
    }

    /// Sends bytes to display RAM in writes of at most `MAX_CHUNK` bytes.
    pub fn send_array_data(&mut self, bytes: &[u8])
        ensures
            final(self).pending() == old(self).pending() + bulk_writes_spec(bytes@),
            final(self).addressing_mode() == old(self).addressing_mode(),
    {
        let mut writes = bulk_writes(bytes);
        self.outbox.append(&mut writes);
        assert(self.pending() =~= old(self).pending() + bulk_writes_spec(bytes@));
    }

    /// Sends each byte of `bytes` as a command, in order.
    fn send_commands(&mut self, bytes: &[u8])
        ensures
            final(self).pending() == old(self).pending() + command_writes(bytes@),
            final(self).addressing_mode() == old(self).addressing_mode(),
    {
        let mut i: usize = 0;
        while i < bytes.len()
            invariant
                i <= bytes@.len(),
                self.pending() == old(self).pending() + command_writes(bytes@.take(i as int)),
                self.addressing_mode() == old(self).addressing_mode(),
            decreases bytes@.len() - i,
        {
            self.send_command(bytes[i]);
            assert(command_writes(bytes@.take(i + 1)) =~= command_writes(bytes@.take(i as int)).push(
                command_write(bytes@[i as int]),
            ));
            i = i + 1;
        }
        assert(bytes@.take(i as int) =~= bytes@);
    }

    /// Sets the cursor to text cell `column` (8 pixel columns wide) of
    /// page `row`.
    pub fn set_text_xy(&mut self, column: u8, row: u8)
        requires
            column < OLED_WIDTH / 8,
            row < OLED_PAGES,
        ensures
            final(self).pending() == old(self).pending() + command_writes(text_xy_commands(column, row)),
            final(self).addressing_mode() == old(self).addressing_mode(),
    {
        let x: u8 = 8 * column;
        let low: u8 = x & 0x0f;
        assert(low == x % 16 && (x >> 4) & 0x0f == x / 16) by (bit_vector)
            requires
                low == x & 0x0f,
        ;
        let high: u8 = 0x10 + ((x >> 4) & 0x0f);
        self.send_command(0xb0 + row);
        self.send_command(low);
        self.send_command(high);
        assert(command_writes(text_xy_commands(column, row)) =~= seq![
            command_write((0xb0 + row) as u8),
            command_write(low),
            command_write(high),
        ]);
        assert(self.pending() =~= old(self).pending() + command_writes(text_xy_commands(column, row)));
    }

    /// Sets the addressing mode of the controller.
    pub fn set_addressing_mode(&mut self, mode: AddressingMode)
        ensures
            final(self).pending() == old(self).pending() + command_writes(mode_commands(mode)),
            final(self).addressing_mode() == mode,
    {
        self.send_command(Command::SetAddressingMode.to_byte());
        self.send_command(mode.to_byte());
        self.mode = mode;
        assert(self.pending() =~= old(self).pending() + command_writes(mode_commands(mode)));
    }

    /// Clears the whole screen: turns the display off, writes a blank
    /// bitmap from the top left corner, and turns the display on.
    pub fn clear_display(&mut self)
        ensures
            final(self).pending() == old(self).pending() + clear_writes(),
            final(self).addressing_mode() == old(self).addressing_mode(),
    {
        self.send_command(Command::DisplayOff.to_byte());
        self.set_text_xy(0, 0);
        let blank: Vec<u8> = vec![0u8; BITMAP_LEN];
        assert(blank@ =~= blank_screen());
        self.send_array_data(blank.as_slice());
        self.send_command(Command::DisplayOn.to_byte());
        assert(self.pending() =~= old(self).pending() + clear_writes());
    }

    /// Configures the controller with the given contrast, selects
    /// horizontal addressing and clears the screen.
    pub fn init_with_contrast(&mut self, contrast: u8)
        ensures
            final(self).pending() == old(self).pending() + init_writes(contrast),
            final(self).addressing_mode() == AddressingMode::Horizontal,
    {
        let sequence: [u8; 25] = [
            Command::DisplayOff.to_byte(),
            0x00,
            0x10,
            0x40,
            0xb0,
            Command::SetContrast.to_byte(),
            contrast,
            0xa1,
            Command::NormalDisplay.to_byte(),
            0xa8,
            0x3f,
            0xc8,
            0xd3,
            0x00,
            0xd5,
            0x80,
            0xd9,
            0xf1,
            0xda,
            0x12,
            0xdb,
            0x40,
            0x8d,
            0x14,
            Command::DisplayOn.to_byte(),
        ];
        assert(sequence@ =~= init_commands(contrast));
        self.send_commands(&sequence);
        self.set_addressing_mode(AddressingMode::Horizontal);
        self.clear_display();
        assert(self.pending() =~= old(self).pending() + init_writes(contrast));
    }

    /// Configures the controller with the default contrast, selects
    /// horizontal addressing and clears the screen.
    pub fn init(&mut self)
        ensures
            final(self).pending() == old(self).pending() + init_writes(DEFAULT_CONTRAST),
            final(self).addressing_mode() == AddressingMode::Horizontal,
    {
        self.init_with_contrast(DEFAULT_CONTRAST);
    }

    /// Draws a grayscale image over the whole screen: a pixel at or above
    /// `threshold` is lit. An image whose length is not the display's width
    /// times its height is refused before anything is queued.
    pub fn draw_image(&mut self, image: &[u8], threshold: u8) -> (r: Result<(), OledError>)
        ensures
            r is Ok <==> image@.len() == IMAGE_LEN,
            r is Ok ==> final(self).pending() == old(self).pending() + image_writes(image@, threshold),
            r is Err ==> r->Err_0 == (OledError::InvalidImageSize { len: image@.len() as usize })
                && final(self).pending() == old(self).pending(),
            final(self).addressing_mode() == old(self).addressing_mode(),
    {
        match render(image, threshold) {
            Err(e) => Err(e),
            Ok(bitmap) => {
                self.set_text_xy(0, 0);
                self.send_array_data(bitmap.as_slice());
                assert(self.pending() =~= old(self).pending() + image_writes(image@, threshold));
                Ok(())
            },
        }
    }

    /// Writes one character at the cursor; the cursor then advances as the
    /// addressing mode says. A character that the font does not have is
    /// refused, and nothing is queued.
    pub fn put_char(&mut self, c: char) -> (r: Result<(), OledError>)
        ensures
            r is Ok <==> has_glyph(c),
            r is Ok ==> final(self).pending() == old(self).pending() + char_writes(c),
            r is Err ==> r->Err_0 == (OledError::UnsupportedChar { c }) && final(self).pending()
                == old(self).pending(),
            final(self).addressing_mode() == old(self).addressing_mode(),
    {
        match bitmap(c) {
            None => Err(OledError::UnsupportedChar { c }),
            Some(g) => {
                self.send_array_data(g.as_slice());
                Ok(())
            },
        }
    }

    /// Writes the characters of `text` one after another from the cursor,
    /// with no wrapping. At the first character that the font does not
    /// have it stops and refuses that character; those before it stay
    /// queued.
    pub fn put_string(&mut self, text: &str) -> (r: Result<(), OledError>)
        ensures
            r is Ok <==> forall|i: int| 0 <= i < text@.len() ==> has_glyph(#[trigger] text@[i]),
            r is Ok ==> final(self).pending() == old(self).pending() + string_writes(text@),
            r is Err ==> exists|k: int|
                0 <= k < text@.len() && r->Err_0 == (OledError::UnsupportedChar { c: text@[k] })
                    && !has_glyph(text@[k]) && (forall|i: int| 0 <= i < k ==> has_glyph(#[trigger] text@[i]))
                    && final(self).pending() == old(self).pending() + string_writes(text@.take(k)),
            final(self).addressing_mode() == old(self).addressing_mode(),
    {
        let mut chars = text.chars();
        proof {
            broadcast use vstd::string::axiom_spec_iter;
        }
        let ghost mut k: int = 0;
        loop
            invariant
                0 <= k <= text@.len(),
                chars.obeys_prophetic_iter_laws(),
                chars.remaining() == text@.skip(k),
                forall|i: int| 0 <= i < k ==> has_glyph(#[trigger] text@[i]),
                self.pending() == old(self).pending() + string_writes(text@.take(k)),
                self.addressing_mode() == old(self).addressing_mode(),
            decreases text@.len() - k,
        {
            let ghost before = chars;
            let next = chars.next();
            proof {
                vstd::string::next_postcondition(&before, &chars, next);
            }
            match next {
                None => {
                    assert(text@.take(k) =~= text@);
                    return Ok(());
                },
                Some(c) => {
                    assert(c == text@[k]);
                    match self.put_char(c) {
                        Err(e) => {
                            return Err(e);
                        },
                        Ok(()) => {
                            assert(text@.take(k + 1).drop_last() =~= text@.take(k));
                            proof {
                                k = k + 1;
                            }
                            assert(chars.remaining() =~= text@.skip(k));
                        },
                    }
                },
            }
        }
    }
}

} // verus!
