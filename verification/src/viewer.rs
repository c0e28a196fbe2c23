//! The viewer core: one value holding the parsed capture, the whole file
//! buffer, the viewport and the redraw bookkeeping, with a pure transition
//! for every key and an exact rendering of the current page.
//!
//! The surrounding event loop performs the terminal I/O: it reads one key,
//! hands it to `handle_key`, asks `needs_redraw`, prints what `render_page`
//! returns, and records the draw with `mark_drawn`.

use vstd::prelude::*;
use vstd::string::StringExecFns;

use crate::args::CliArgs;
use crate::display::{
    format_parsed_info, hex_cells, spans_match, spec_cells_ok, spec_parsed_info_spans, HexCell,
    Span,
};
use crate::keyboard::{KeyInput, KeyboardHandler};
use crate::pagination::PaginationState;
use crate::parser::{packets_wf, PcapParser};
use crate::terminal::TerminalManager;
use crate::textfmt::{push_hex_padded, spec_hex_padded};

verus! {

/// Whether the event loop should go on or stop.
#[derive(Debug, Clone, Copy, PartialEq, Eq, Structural)]
pub enum LoopControl {
    Continue,
    Quit,
}

/// One display line, ready to print: the offset column, the per-byte hex
/// cells with their region tags, the number of blank cells padding the hex
/// column, and the annotation column.
#[derive(Debug, Clone, PartialEq, Eq)]
pub struct RenderedLine {
    pub offset_text: String,
    pub cells: Vec<HexCell>,
    pub pad_cells: usize,
    pub annotation: Vec<Span>,
}

/// Logical lines a document of `len` bytes takes at `bpl` bytes per line.
pub open spec fn spec_total_lines(len: int, bpl: int) -> int
    recommends
        bpl >= 1,
{
    (len + bpl - 1) / bpl
}

/// Number of lines `render_page` owes: the page height, or what is left of
/// the document from the start line on, whichever is smaller.
pub open spec fn spec_page_line_count(len: int, bpl: int, start_line: int, lpp: int) -> int
    recommends
        bpl >= 1,
{
    let start_off = start_line * bpl;
    if start_off >= len {
        0
    } else {
        let remaining_lines = spec_total_lines(len - start_off, bpl);
        if lpp <= remaining_lines {
            lpp
        } else {
            remaining_lines
        }
    }
}

/// What one rendered line must hold for the line of at most `bpl` bytes
/// starting at absolute offset `line_start` of `data`.
pub open spec fn spec_rendered_line_ok(
    rl: RenderedLine,
    data: Seq<u8>,
    header: Option<crate::parser::PcapFileHeader>,
    s: Seq<crate::parser::DataPacket>,
    line_start: int,
    bpl: int,
) -> bool {
    let line_end = if line_start + bpl <= data.len() {
        line_start + bpl
    } else {
        data.len() as int
    };
    let line = data.subrange(line_start, line_end);
    &&& rl.offset_text@ == spec_hex_padded(line_start, 8) + ": "@
    &&& spec_cells_ok(rl.cells@, line, line_start, s)
    &&& rl.pad_cells == bpl - line.len()
    &&& spans_match(rl.annotation@, spec_parsed_info_spans(line, line_start, header, s))
}

/// Logical line count of a `len`-byte document, rounding the short last
/// line up.
pub fn total_lines_for(len: usize, bytes_per_line: usize) -> (r: usize)
    requires
        bytes_per_line > 0,
    ensures
        r == spec_total_lines(len as int, bytes_per_line as int),
{
    if len == 0 {
        proof {
            vstd::arithmetic::div_mod::lemma_basic_div_specific_divisor(bytes_per_line as int);
        }
        0
    } else {
        let r = (len - 1) / bytes_per_line + 1;
        proof {
            vstd::arithmetic::div_mod::lemma_div_plus_one((len - 1) as int, bytes_per_line as int);
            vstd::arithmetic::div_mod::lemma_div_pos_is_pos((len - 1) as int, bytes_per_line as int);
            vstd::arithmetic::div_mod::lemma_div_nonincreasing(
                (len - 1) as int,
                bytes_per_line as int,
            );
        }
        r
    }
}

/// The viewer: parsed capture, configuration, file bytes, terminal and
/// keyboard bookkeeping, viewport, and the start line of the last draw.
pub struct HexViewer {
    pub parser: PcapParser,
    pub args: CliArgs,
    pub file_data: Vec<u8>,
    pub terminal_manager: TerminalManager,
    pub keyboard_handler: KeyboardHandler,
    pub pagination: PaginationState,
    pub last_display_start_line: usize,
}

impl HexViewer {
    /// Everything the transitions preserve: a positive line width, a
    /// well-formed packet list, a viewport within bounds, and a line total
    /// that matches the file.
    pub open spec fn wf(self) -> bool {
        &&& self.args.bytes_per_line > 0
        &&& packets_wf(self.parser.packets@)
        &&& self.pagination.wf()
        &&& self.pagination.total_lines == spec_total_lines(
            self.file_data@.len() as int,
            self.args.bytes_per_line as int,
        )
    }

    /// This viewer with another viewport.
    pub open spec fn spec_with_pagination(self, pagination: PaginationState) -> Self {
        HexViewer { pagination, ..self }
    }

    /// This viewer with another viewport and the redraw mark cleared.
    pub open spec fn spec_with_pagination_and_mark(
        self,
        pagination: PaginationState,
        last_display_start_line: usize,
    ) -> Self {
        HexViewer { pagination, last_display_start_line, ..self }
    }

    /// Build a viewer over a parsed capture and its raw bytes. The page
    /// height is taken from the terminal; the viewport starts at the top,
    /// and the redraw mark is set so the first check always draws.
    pub fn new(parser: PcapParser, args: CliArgs, file_data: Vec<u8>) -> (r: Self)
        requires
            args.bytes_per_line > 0,
            packets_wf(parser.packets@),
        ensures
            r.wf(),
            r.parser == parser,
            r.args == args,
            r.file_data == file_data,
            r.pagination.display_start_line == 0,
            r.pagination.total_lines == spec_total_lines(
                file_data@.len() as int,
                args.bytes_per_line as int,
            ),
            r.last_display_start_line == usize::MAX,
    {
        let terminal_manager = TerminalManager::new();
        let keyboard_handler = KeyboardHandler::default();
        let lines_per_page = terminal_manager.calculate_display_lines(6);
        let total_lines = total_lines_for(file_data.len(), args.bytes_per_line);
        let pagination = PaginationState::new(lines_per_page, total_lines);
        HexViewer {
            parser,
            args,
            file_data,
            terminal_manager,
            keyboard_handler,
            pagination,
            last_display_start_line: usize::MAX,
        }
    }

    /// Re-read the terminal height and resize the viewport when the page
    /// height changed; says whether it did. Only the viewport may change.
    pub fn update_terminal_size(&mut self) -> (r: bool)
        ensures
            *final(self) == old(self).spec_with_pagination(final(self).pagination),
            r <==> final(self).pagination.lines_per_page
                != old(self).pagination.lines_per_page,
            !r ==> final(self).pagination == old(self).pagination,
            r ==> final(self).pagination == old(self).pagination.spec_update_lines_per_page(
                final(self).pagination.lines_per_page,
            ),
            old(self).wf() ==> final(self).wf(),
    {
        let new_lines_per_page = self.terminal_manager.calculate_display_lines(6);
        let size_changed = new_lines_per_page != self.pagination.lines_per_page();
        if size_changed {
            self.pagination.update_lines_per_page(new_lines_per_page);
        }
        size_changed
    }

    /// Apply one key: arrows scroll by a line, left and right page, Home
    /// and End jump, `r` re-reads the terminal size and forces a redraw,
    /// Esc and `q` stop the loop, anything else does nothing.
    pub fn handle_key(&mut self, key: KeyInput) -> (r: LoopControl)
        ensures
            r == (if key == KeyInput::Esc || key == KeyInput::CharQ {
                LoopControl::Quit
            } else {
                LoopControl::Continue
            }),
            match key {
                KeyInput::Up => *final(self) == old(self).spec_with_pagination(
                    old(self).pagination.spec_scroll_up(),
                ),
                KeyInput::Down => *final(self) == old(self).spec_with_pagination(
                    old(self).pagination.spec_scroll_down(),
                ),
                KeyInput::Left => *final(self) == old(self).spec_with_pagination(
                    old(self).pagination.spec_page_up(),
                ),
                KeyInput::Right => *final(self) == old(self).spec_with_pagination(
                    old(self).pagination.spec_page_down(),
                ),
                KeyInput::Home => *final(self) == old(self).spec_with_pagination(
                    old(self).pagination.spec_go_to_first_page(),
                ),
                KeyInput::End => *final(self) == old(self).spec_with_pagination(
                    old(self).pagination.spec_go_to_last_page(),
                ),
                KeyInput::CharR => {
                    &&& *final(self) == old(self).spec_with_pagination_and_mark(
                        final(self).pagination,
                        usize::MAX,
                    )
                    &&& (final(self).pagination == old(self).pagination || final(self).pagination
                        == old(self).pagination.spec_update_lines_per_page(
                        final(self).pagination.lines_per_page,
                    ))
                },
                KeyInput::Esc | KeyInput::CharQ | KeyInput::Other => *final(self) == *old(self),
            },
            old(self).wf() ==> final(self).wf(),
    {
        match key {
            KeyInput::Esc | KeyInput::CharQ => LoopControl::Quit,
            KeyInput::Up => {
                self.pagination.scroll_up();
                LoopControl::Continue
            },
            KeyInput::Down => {
                self.pagination.scroll_down();
                LoopControl::Continue
            },
            KeyInput::Left => {
                self.pagination.page_up();
                LoopControl::Continue
            },
            KeyInput::Right => {
                self.pagination.page_down();
                LoopControl::Continue
            },
            KeyInput::Home => {
                self.pagination.go_to_first_page();
                LoopControl::Continue
            },
            KeyInput::End => {
                self.pagination.go_to_last_page();
                LoopControl::Continue
            },
            KeyInput::CharR => {
                let _ = self.update_terminal_size();
                self.last_display_start_line = usize::MAX;
                LoopControl::Continue
            },
            KeyInput::Other => LoopControl::Continue,
        }
    }

    /// A draw is owed when the terminal size changed or the viewport moved
    /// since the last draw.
    pub fn needs_redraw(&self, size_changed: bool) -> (r: bool)
        ensures
            r == (size_changed || self.pagination.display_start_line
                != self.last_display_start_line),
    {
        size_changed || self.pagination.display_start_line() != self.last_display_start_line
    }

    /// The status line of the help area: the current line and page
    /// position over their totals.
    pub fn status_line(&self) -> (r: String)
        requires
            self.pagination.lines_per_page > 0,
            self.pagination.wf(),
        ensures
            r@ == "第 "@ + crate::textfmt::spec_dec(
                self.pagination.display_start_line + 1,
            ) + " 行 / 共 "@ + crate::textfmt::spec_dec(
                self.pagination.total_lines as int,
            ) + " 行 (第 "@ + crate::textfmt::spec_dec(
                self.pagination.display_start_line / self.pagination.lines_per_page + 1,
            ) + " 页 / 共 "@ + crate::textfmt::spec_dec(
                (self.pagination.total_lines + self.pagination.lines_per_page - 1)
                    / self.pagination.lines_per_page as int,
            ) + " 页)"@,
    {
        let mut s = String::new();
        s.append("第 ");
        crate::textfmt::push_dec(&mut s, (self.pagination.display_start_line() + 1) as u64);
        s.append(" 行 / 共 ");
        crate::textfmt::push_dec(&mut s, self.pagination.total_lines() as u64);
        s.append(" 行 (第 ");
        crate::textfmt::push_dec(&mut s, self.pagination.current_page() as u64);
        s.append(" 页 / 共 ");
        crate::textfmt::push_dec(&mut s, self.pagination.total_pages() as u64);
        s.append(" 页)");
        s
    }

    /// Record that the current viewport has been drawn.
    pub fn mark_drawn(&mut self)
        ensures
            *final(self) == old(self).spec_with_pagination_and_mark(
                old(self).pagination,
                old(self).pagination.display_start_line,
            ),
    {
        self.last_display_start_line = self.pagination.display_start_line();
    }

    /// Render the current page: one `RenderedLine` per logical line from
    /// the viewport's start line, up to the page height, stopping at the
    /// end of the file.
    pub fn render_page(&self) -> (r: Vec<RenderedLine>)
        requires
            self.wf(),
        ensures
            r@.len() == spec_page_line_count(
                self.file_data@.len() as int,
                self.args.bytes_per_line as int,
                self.pagination.display_start_line as int,
                self.pagination.lines_per_page as int,
            ),
            forall|j: int|
                0 <= j < r@.len() ==> spec_rendered_line_ok(
                    #[trigger] r@[j],
                    self.file_data@,
                    self.parser.file_header,
                    self.parser.packets@,
                    self.pagination.display_start_line * self.args.bytes_per_line + j
                        * self.args.bytes_per_line,
                    self.args.bytes_per_line as int,
                ),
    {
        let bpl = self.args.bytes_per_line;
        let len = self.file_data.len();
        let lpp = self.pagination.lines_per_page();
        let mut lines: Vec<RenderedLine> = Vec::new();
        let start_offset = match self.pagination.display_start_line().checked_mul(bpl) {
            Some(o) => o,
            None => {
                return lines;
            },
        };
        if start_offset >= len {
            return lines;
        }
        let ghost start_off = start_offset as int;
        let data = self.file_data.as_slice();
        let mut current_offset = start_offset;
        let mut lines_displayed: usize = 0;
        while lines_displayed < lpp && current_offset < len
            invariant
                self.wf(),
                bpl == self.args.bytes_per_line,
                len == self.file_data@.len(),
                lpp == self.pagination.lines_per_page,
                data@ == self.file_data@,
                start_off == self.pagination.display_start_line * bpl,
                start_off < len,
                lines_displayed <= lpp,
                lines@.len() == lines_displayed,
                current_offset == if start_off + lines_displayed * bpl <= len {
                    start_off + lines_displayed * bpl
                } else {
                    len as int
                },
                lines_displayed > 0 ==> start_off + (lines_displayed - 1) * bpl < len,
                forall|j: int|
                    0 <= j < lines@.len() ==> spec_rendered_line_ok(
                        #[trigger] lines@[j],
                        self.file_data@,
                        self.parser.file_header,
                        self.parser.packets@,
                        start_off + j * bpl,
                        bpl as int,
                    ),
            decreases len - current_offset + (lpp - lines_displayed),
        {
            let remaining = len - current_offset;
            let take = if bpl <= remaining {
                bpl
            } else {
                remaining
            };
            let line_end = current_offset + take;
            let line = &data[current_offset..line_end];
            let mut offset_text = String::new();
            push_hex_padded(&mut offset_text, current_offset as u64, 8);
            offset_text.append(": ");
            let cells = hex_cells(line, current_offset, self.parser.packets.as_slice());
            let annotation = format_parsed_info(line, current_offset, &self.parser);
            let rendered = RenderedLine { offset_text, cells, pad_cells: bpl - take, annotation };
            proof {
                let j = lines_displayed as int;
                assert(current_offset == start_off + j * bpl);
                assert(line@ =~= self.file_data@.subrange(current_offset as int, line_end as int));
                assert(spec_rendered_line_ok(
                    rendered,
                    self.file_data@,
                    self.parser.file_header,
                    self.parser.packets@,
                    start_off + j * bpl,
                    bpl as int,
                ));
                assert(start_off + (j + 1) * bpl == start_off + j * bpl + bpl) by (nonlinear_arith);
            }
            lines.push(rendered);
            current_offset = line_end;
            lines_displayed = lines_displayed + 1;
        }
        proof {
            let count = spec_page_line_count(
                len as int,
                bpl as int,
                self.pagination.display_start_line as int,
                lpp as int,
            );
            let d = lines_displayed as int;
            let remaining_lines = spec_total_lines(len - start_off, bpl as int);
            if current_offset < len {
                // stopped because the page is full
                assert(d == lpp);
                assert(start_off + d * bpl < len);
                assert(remaining_lines >= d + 1) by {
                    lemma_line_count_from_bounds(len - start_off, bpl as int, d);
                }
            } else {
                // stopped at the end of the file
                assert(start_off + d * bpl >= len);
                assert(d > 0);
                assert(start_off + (d - 1) * bpl < len);
                assert(remaining_lines == d) by {
                    lemma_line_count_exact(len - start_off, bpl as int, d);
                }
            }
            assert(lines@.len() == count);
        }
        lines
    }
}

/// With more than `d` full lines' worth of bytes left, the line count of
/// the remainder exceeds `d`.
proof fn lemma_line_count_from_bounds(rest: int, bpl: int, d: int)
    requires
        bpl >= 1,
        d >= 0,
        d * bpl < rest,
    ensures
        spec_total_lines(rest, bpl) >= d + 1,
{
    assert((rest + bpl - 1) / bpl >= d + 1) by {
        assert((d + 1) * bpl == d * bpl + bpl) by (nonlinear_arith);
        assert(rest + bpl - 1 >= (d + 1) * bpl);
        vstd::arithmetic::div_mod::lemma_div_is_ordered((d + 1) * bpl, rest + bpl - 1, bpl);
        vstd::arithmetic::div_mod::lemma_div_by_multiple(d + 1, bpl);
    }
}

/// A remainder that fills more than `d - 1` lines but at most `d` takes
/// exactly `d` lines.
proof fn lemma_line_count_exact(rest: int, bpl: int, d: int)
    requires
        bpl >= 1,
        d >= 1,
        (d - 1) * bpl < rest,
        rest <= d * bpl,
    ensures
        spec_total_lines(rest, bpl) == d,
{
    let x = rest + bpl - 1;
    assert((d - 1) * bpl + bpl == d * bpl) by (nonlinear_arith);
    assert(d * bpl <= x);
    assert(x < d * bpl + bpl);
    assert(x / bpl == d) by {
        vstd::arithmetic::div_mod::lemma_fundamental_div_mod_converse_div(
            x,
            bpl,
            d,
            x - d * bpl,
        );
    }
}

} // verus!
