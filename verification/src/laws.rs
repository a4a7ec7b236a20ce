//! What follows from the definitions of the screen operations, proved once
//! for every screen and every text.

use crate::buffer::{BUFFER_HEIGHT, BUFFER_WIDTH};
use crate::screen::{is_printable, sanitize, Screen, NEWLINE, PLACEHOLDER};
use vstd::prelude::*;

verus! {

/// Every byte of the text is printable ASCII.
pub open spec fn all_printable(bytes: Seq<u8>) -> bool {
    forall|i: int| 0 <= i < bytes.len() ==> is_printable(#[trigger] bytes[i])
}

/// Writing a byte to a well-formed screen gives a well-formed screen, in the
/// same attribute.
pub proof fn lemma_write_byte_wf(screen: Screen, byte: u8)
    requires
        screen.wf(),
    ensures
        screen.write_byte(byte).wf(),
        screen.write_byte(byte).color == screen.color,
{
}

/// Writing text to a well-formed screen gives a well-formed screen, in the
/// same attribute.
pub proof fn lemma_write_string_wf(screen: Screen, bytes: Seq<u8>)
    requires
        screen.wf(),
    ensures
        screen.write_string(bytes).wf(),
        screen.write_string(bytes).color == screen.color,
    decreases bytes.len(),
{
    if bytes.len() > 0 {
        lemma_write_string_wf(screen, bytes.drop_last());
        lemma_write_byte_wf(screen.write_string(bytes.drop_last()), sanitize(bytes.last()));
    }
}

/// Writing one text and then another is writing the two joined.
pub proof fn lemma_write_string_concat(screen: Screen, first: Seq<u8>, second: Seq<u8>)
    ensures
        screen.write_string(first + second) == screen.write_string(first).write_string(second),
    decreases second.len(),
{
    if second.len() == 0 {
        assert(first + second =~= first);
    } else {
        lemma_write_string_concat(screen, first, second.drop_last());
        assert((first + second).drop_last() =~= first + second.drop_last());
        assert((first + second).last() == second.last());
    }
}

/// Printable text that fits on what is left of the bottom row goes there
/// byte for byte, in order, from the column on; the column moves right by
/// the length of the text, and no other cell changes.
pub proof fn lemma_printable_text_fills_row(screen: Screen, bytes: Seq<u8>)
    requires
        screen.wf(),
        all_printable(bytes),
        screen.column + bytes.len() <= BUFFER_WIDTH,
    ensures
        ({
            let after = screen.write_string(bytes);
            &&& after.wf()
            &&& after.color == screen.color
            &&& after.column == screen.column + bytes.len()
            &&& forall|i: int|
                0 <= i < bytes.len() ==> after.bottom_row()[screen.column + i] == screen.glyph(
                    #[trigger] bytes[i],
                )
            &&& forall|c: int|
                0 <= c < BUFFER_WIDTH && !(screen.column <= c < screen.column + bytes.len())
                    ==> #[trigger] after.bottom_row()[c] == screen.bottom_row()[c]
            &&& forall|r: int| 0 <= r < BUFFER_HEIGHT - 1 ==> #[trigger] after.rows[r] == screen.rows[r]
        }),
    decreases bytes.len(),
{
    if bytes.len() > 0 {
        let front = bytes.drop_last();
        assert(all_printable(front)) by {
            assert forall|i: int| 0 <= i < front.len() implies is_printable(#[trigger] front[i]) by {
                assert(front[i] == bytes[i]);
            }
        }
        lemma_printable_text_fills_row(screen, front);
        let before = screen.write_string(front);
        let after = screen.write_string(bytes);
        assert(is_printable(bytes[bytes.len() - 1]));
        assert(after == before.put(bytes.last()));
        assert forall|i: int| 0 <= i < bytes.len() implies after.bottom_row()[screen.column + i]
            == screen.glyph(#[trigger] bytes[i]) by {
            if i < front.len() {
                assert(front[i] == bytes[i]);
            }
        }
    }
}

/// Printable text of fewer bytes than a row is wide, written at the left
/// edge, stands on the bottom row from its first cell on, byte for byte, and
/// the column afterwards is the length of the text.
pub proof fn lemma_short_text_on_fresh_line(screen: Screen, bytes: Seq<u8>)
    requires
        screen.wf(),
        screen.column == 0,
        all_printable(bytes),
        bytes.len() < BUFFER_WIDTH,
    ensures
        screen.write_string(bytes).column == bytes.len(),
        forall|i: int|
            0 <= i < bytes.len() ==> (#[trigger] screen.write_string(bytes).bottom_row()[i])
                == screen.glyph(bytes[i]),
{
    lemma_printable_text_fills_row(screen, bytes);
    let after = screen.write_string(bytes);
    assert forall|i: int| 0 <= i < bytes.len() implies (#[trigger] after.bottom_row()[i])
        == screen.glyph(bytes[i]) by {
        assert(after.bottom_row()[screen.column + i] == screen.glyph(bytes[i]));
    }
}

/// A byte of text that is neither printable nor a newline is shown as the
/// placeholder, whatever was written before it: the cell left of the column
/// holds the placeholder and not the byte itself, unless the byte is the
/// placeholder's own code.
pub proof fn lemma_unprintable_byte_shows_placeholder(screen: Screen, text: Seq<u8>, byte: u8)
    requires
        screen.wf(),
        !is_printable(byte),
        byte != NEWLINE,
    ensures
        ({
            let before = screen.write_string(text);
            let after = screen.write_string(text.push(byte));
            &&& after == before.write_byte(PLACEHOLDER)
            &&& 1 <= after.column <= BUFFER_WIDTH
            &&& after.bottom_row()[after.column - 1] == screen.glyph(PLACEHOLDER)
            &&& after.bottom_row()[after.column - 1].ascii_character == PLACEHOLDER
            &&& byte != PLACEHOLDER ==> after.bottom_row()[after.column - 1].ascii_character != byte
        }),
{
    lemma_write_string_wf(screen, text);
    assert(text.push(byte).drop_last() =~= text);
    assert(text.push(byte).last() == byte);
}

/// A newline, written as a byte or as text, returns the column to the left
/// edge and moves every row up by one: the top row is gone and the bottom row
/// is blank, a space in the writer's attribute in every cell.
pub proof fn lemma_newline_scrolls(screen: Screen)
    requires
        screen.wf(),
    ensures
        ({
            let after = screen.write_byte(NEWLINE);
            &&& after == screen.new_line()
            &&& after == screen.write_string(seq![NEWLINE])
            &&& after.wf()
            &&& after.color == screen.color
            &&& after.column == 0
            &&& forall|r: int| 0 <= r < BUFFER_HEIGHT - 1 ==> #[trigger] after.rows[r] == screen.rows[r + 1]
            &&& forall|c: int| 0 <= c < BUFFER_WIDTH ==> #[trigger] after.bottom_row()[c] == screen.blank()
        }),
{
    let text = seq![NEWLINE];
    assert(text.drop_last() =~= Seq::<u8>::empty());
    assert(screen.write_string(text.drop_last()) == screen);
}

/// A row of printable text followed by one more printable byte scrolls the
/// screen: the row of text stands one row above the bottom, the last byte
/// stands alone at the left edge of the bottom row.
///
/// This holds where the text starts on a fresh row: at the left edge, or
/// past the right edge of a full row, where the first byte starts a new line.
pub proof fn lemma_full_row_wraps(screen: Screen, bytes: Seq<u8>)
    requires
        screen.wf(),
        screen.column == 0 || screen.column == BUFFER_WIDTH,
        all_printable(bytes),
        bytes.len() == BUFFER_WIDTH + 1,
    ensures
        ({
            let after = screen.write_string(bytes);
            &&& after.wf()
            &&& after.column == 1
            &&& forall|i: int|
                0 <= i < BUFFER_WIDTH ==> after.rows[BUFFER_HEIGHT - 2][i] == screen.glyph(
                    #[trigger] bytes[i],
                )
            &&& after.bottom_row()[0] == screen.glyph(bytes[BUFFER_WIDTH as int])
            &&& forall|c: int| 1 <= c < BUFFER_WIDTH ==> #[trigger] after.bottom_row()[c] == screen.blank()
            &&& screen.column == 0 ==> forall|r: int|
                0 <= r < BUFFER_HEIGHT - 2 ==> #[trigger] after.rows[r] == screen.rows[r + 1]
            &&& screen.column == BUFFER_WIDTH ==> forall|r: int|
                0 <= r < BUFFER_HEIGHT - 2 ==> #[trigger] after.rows[r] == screen.rows[r + 2]
        }),
{
    let row = bytes.drop_last();
    assert(all_printable(row)) by {
        assert forall|i: int| 0 <= i < row.len() implies is_printable(#[trigger] row[i]) by {
            assert(row[i] == bytes[i]);
        }
    }
    assert(is_printable(bytes[BUFFER_WIDTH as int]));
    let full = screen.write_string(row);
    if screen.column == 0 {
        lemma_printable_text_fills_row(screen, row);
        assert forall|i: int| 0 <= i < BUFFER_WIDTH implies full.bottom_row()[i] == screen.glyph(
            #[trigger] row[i],
        ) by {
            assert(full.bottom_row()[screen.column + i] == screen.glyph(row[i]));
        }
    } else {
        // The first byte starts a new line; the rest of the row follows on it.
        let head = row.take(1);
        let tail = row.skip(1);
        assert(row =~= head + tail);
        assert(head.drop_last() =~= Seq::<u8>::empty());
        assert(is_printable(row[0]));
        assert(screen.write_string(head.drop_last()) == screen);
        assert(screen.write_string(head) == screen.new_line().put(row[0]));
        lemma_write_string_concat(screen, head, tail);
        assert(all_printable(tail)) by {
            assert forall|i: int| 0 <= i < tail.len() implies is_printable(#[trigger] tail[i]) by {
                assert(tail[i] == row[i + 1]);
            }
        }
        lemma_printable_text_fills_row(screen.write_string(head), tail);
        assert forall|i: int| 0 <= i < BUFFER_WIDTH implies full.bottom_row()[i] == screen.glyph(
            #[trigger] row[i],
        ) by {
            if i > 0 {
                assert(tail[i - 1] == row[i]);
                assert(full.bottom_row()[1 + (i - 1)] == screen.glyph(tail[i - 1]));
            }
        }
    }
    let after = screen.write_string(bytes);
    assert(after == full.new_line().put(bytes.last()));
    assert forall|i: int| 0 <= i < BUFFER_WIDTH implies after.rows[BUFFER_HEIGHT - 2][i]
        == screen.glyph(#[trigger] bytes[i]) by {
        assert(row[i] == bytes[i]);
    }
}

/// Blanking a row that was just blanked changes nothing.
pub proof fn lemma_clear_row_idempotent(screen: Screen, row: int)
    requires
        screen.wf(),
        0 <= row < BUFFER_HEIGHT,
    ensures
        screen.clear_row(row).clear_row(row) == screen.clear_row(row),
{
    assert(screen.clear_row(row).clear_row(row).rows =~= screen.clear_row(row).rows);
}

} // verus!
