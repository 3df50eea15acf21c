//! A card: lines of styled text in a border.
use vstd::prelude::*;

use crate::text::{push_repeated, repeated};

verus! {

/// A text in one style, which is the escape sequence that switches it on.
pub struct Span {
    pub content: String,
    pub style: &'static str,
}

/// What a span holds.
pub struct SpanView {
    pub content: Seq<char>,
    pub style: Seq<char>,
}

impl View for Span {
    type V = SpanView;

    open spec fn view(&self) -> SpanView {
        SpanView { content: self.content@, style: self.style@ }
    }
}

/// A line of spans.
pub struct Line {
    pub spans: Vec<Span>,
}

impl View for Line {
    type V = Seq<SpanView>;

    open spec fn view(&self) -> Seq<SpanView> {
        self.spans@.map_values(|span: Span| span@)
    }
}

/// What some lines hold.
pub open spec fn lines_view(lines: Seq<Line>) -> Seq<Seq<SpanView>> {
    lines.map_values(|line: Line| line@)
}

/// The number of characters in a line.
pub open spec fn line_width(spans: Seq<SpanView>) -> nat
    decreases spans.len(),
{
    if spans.len() == 0 {
        0
    } else {
        line_width(spans.drop_last()) + spans.last().content.len()
    }
}

/// The number of characters in the widest of some lines; 0 where there is none.
pub open spec fn content_width(lines: Seq<Seq<SpanView>>) -> nat
    decreases lines.len(),
{
    if lines.len() == 0 {
        0
    } else {
        let others = content_width(lines.drop_last());
        let last = line_width(lines.last());
        if last > others {
            last
        } else {
            others
        }
    }
}

/// No line is wider than the content is, and where there is a line, one is
/// just as wide; where there is none, the content takes no room.
pub proof fn law_content_is_as_wide_as_its_widest_line(lines: Seq<Seq<SpanView>>)
    ensures
        forall|i: int|
            0 <= i < lines.len() ==> line_width(#[trigger] lines[i]) <= content_width(lines),
        lines.len() > 0 ==> exists|i: int|
            0 <= i < lines.len() && line_width(#[trigger] lines[i]) == content_width(lines),
        lines.len() == 0 ==> content_width(lines) == 0,
    decreases lines.len(),
{
    if lines.len() > 0 {
        let others = lines.drop_last();
        law_content_is_as_wide_as_its_widest_line(others);
        assert forall|i: int| 0 <= i < lines.len() implies line_width(#[trigger] lines[i])
            <= content_width(lines) by {
            if i < others.len() {
                assert(lines[i] == others[i]);
            }
        }
        if line_width(lines.last()) >= content_width(others) {
            assert(line_width(lines[lines.len() - 1]) == content_width(lines));
        } else {
            let i = choose|i: int|
                0 <= i < others.len() && line_width(#[trigger] others[i]) == content_width(others);
            assert(line_width(lines[i]) == content_width(lines));
        }
    }
}

/// A piece of a row: an escape sequence, which takes no room, or text.
pub enum Piece {
    Style(Seq<char>),
    Text(Seq<char>),
}

/// The characters that are written for a row.
pub open spec fn written(row: Seq<Piece>) -> Seq<char>
    decreases row.len(),
{
    if row.len() == 0 {
        Seq::empty()
    } else {
        written(row.drop_last()) + match row.last() {
            Piece::Style(text) => text,
            Piece::Text(text) => text,
        }
    }
}

/// The room that a row takes.
pub open spec fn visible_width(row: Seq<Piece>) -> nat
    decreases row.len(),
{
    if row.len() == 0 {
        0
    } else {
        visible_width(row.drop_last()) + match row.last() {
            Piece::Style(text) => 0,
            Piece::Text(text) => text.len(),
        }
    }
}

/// A row of the border, between two corners, for content of a given width.
pub open spec fn border_row(left: Seq<char>, right: Seq<char>, width: nat) -> Seq<Piece> {
    seq![
        Piece::Style("\x1b[1;38;5;244m"@),
        Piece::Text(left),
        Piece::Text(repeated('━', width + 4)),
        Piece::Text(right),
        Piece::Style("\x1b[0m"@),
    ]
}

/// The spans of a line, each in its style.
pub open spec fn span_pieces(spans: Seq<SpanView>) -> Seq<Piece>
    decreases spans.len(),
{
    if spans.len() == 0 {
        Seq::empty()
    } else {
        span_pieces(spans.drop_last()) + seq![
            Piece::Style(spans.last().style),
            Piece::Text(spans.last().content),
            Piece::Style("\x1b[0m"@),
        ]
    }
}

/// What stands in a row in front of the line.
pub open spec fn row_start() -> Seq<Piece> {
    seq![
        Piece::Style("\x1b[1;38;5;244m"@),
        Piece::Text("┃"@),
        Piece::Text("  "@),
        Piece::Style("\x1b[0m"@),
    ]
}

/// What stands in a row behind the line, with `padding` spaces to fill it up.
pub open spec fn row_end(padding: nat) -> Seq<Piece> {
    seq![
        Piece::Text(repeated(' ', padding)),
        Piece::Text("  "@),
        Piece::Style("\x1b[1;38;5;244m"@),
        Piece::Text("┃"@),
    ]
}

/// The row of a line, filled up to the width of the content.
pub open spec fn line_row(spans: Seq<SpanView>, width: nat) -> Seq<Piece> {
    row_start() + span_pieces(spans) + row_end((width - line_width(spans)) as nat)
}

/// The rows of a card: the border's upper side, the lines, and its lower side.
pub open spec fn card_rows(lines: Seq<Seq<SpanView>>) -> Seq<Seq<Piece>> {
    let width = content_width(lines);
    seq![border_row("┏"@, "┓"@, width)] + lines.map_values(
        |spans: Seq<SpanView>| line_row(spans, width),
    ) + seq![border_row("┗"@, "┛"@, width)]
}

/// Rows, each with a line feed behind it.
pub open spec fn written_rows(rows: Seq<Seq<Piece>>) -> Seq<char>
    decreases rows.len(),
{
    if rows.len() == 0 {
        Seq::empty()
    } else {
        written_rows(rows.drop_last()) + written(rows.last()) + "\n"@
    }
}

/// A card with some lines.
pub open spec fn card_text(lines: Seq<Seq<SpanView>>) -> Seq<char> {
    written_rows(card_rows(lines))
}

proof fn lemma_written_concat(first: Seq<Piece>, second: Seq<Piece>)
    ensures
        written(first + second) == written(first) + written(second),
        visible_width(first + second) == visible_width(first) + visible_width(second),
    decreases second.len(),
{
    if second.len() == 0 {
        assert(first + second =~= first);
        assert(written(first) + written(second) =~= written(first));
    } else {
        lemma_written_concat(first, second.drop_last());
        assert((first + second).drop_last() =~= first + second.drop_last());
        assert(written(first + second) =~= written(first) + written(second));
    }
}

proof fn lemma_span_pieces_width(spans: Seq<SpanView>)
    ensures
        visible_width(span_pieces(spans)) == line_width(spans),
    decreases spans.len(),
{
    if spans.len() > 0 {
        lemma_span_pieces_width(spans.drop_last());
        let own = seq![
            Piece::Style(spans.last().style),
            Piece::Text(spans.last().content),
            Piece::Style("\x1b[0m"@),
        ];
        lemma_written_concat(span_pieces(spans.drop_last()), own);
        reveal_with_fuel(visible_width, 4);
    }
}

/// A card is a rectangle: each of its rows takes the same room, which is that
/// of the widest line, a border and two spaces on either side.
pub proof fn law_card_is_a_rectangle(lines: Seq<Seq<SpanView>>)
    ensures
        card_rows(lines).len() == lines.len() + 2,
        forall|i: int|
            0 <= i < card_rows(lines).len() ==> visible_width(#[trigger] card_rows(lines)[i])
                == content_width(lines) + 6,
{
    let width = content_width(lines);
    law_content_is_as_wide_as_its_widest_line(lines);
    assert forall|i: int| 0 <= i < card_rows(lines).len() implies visible_width(
        #[trigger] card_rows(lines)[i],
    ) == width + 6 by {
        reveal_with_fuel(visible_width, 6);
        reveal_strlit("┏");
        reveal_strlit("┓");
        reveal_strlit("┗");
        reveal_strlit("┛");
        reveal_strlit("┃");
        reveal_strlit("  ");
        if 0 < i <= lines.len() {
            let spans = lines[i - 1];
            lemma_written_concat(
                row_start() + span_pieces(spans),
                row_end((width - line_width(spans)) as nat),
            );
            lemma_written_concat(row_start(), span_pieces(spans));
            lemma_span_pieces_width(spans);
        }
    }
}

/// A line is as wide as its spans are together, counted in characters.
pub proof fn law_widths_add_up(first: Seq<SpanView>, second: Seq<SpanView>, span: SpanView)
    ensures
        line_width(Seq::<SpanView>::empty()) == 0,
        line_width(seq![span]) == span.content.len(),
        line_width(first + second) == line_width(first) + line_width(second),
    decreases second.len(),
{
    reveal_with_fuel(line_width, 2);
    assert(seq![span].drop_last() =~= Seq::<SpanView>::empty());
    if second.len() == 0 {
        assert(first + second =~= first);
    } else {
        law_widths_add_up(first, second.drop_last(), span);
        assert((first + second).drop_last() =~= first + second.drop_last());
    }
}

/// The spans of a line are written one behind the other, and each is its style,
/// its content and the return to no style.
pub proof fn law_spans_are_written_whole(
    first: Seq<SpanView>,
    second: Seq<SpanView>,
    span: SpanView,
)
    ensures
        written(span_pieces(Seq::<SpanView>::empty())).len() == 0,
        written(span_pieces(seq![span])) == span.style + span.content + "\x1b[0m"@,
        written(span_pieces(first + second)) == written(span_pieces(first)) + written(
            span_pieces(second),
        ),
    decreases second.len(),
{
    let own = seq![
        Piece::Style(span.style),
        Piece::Text(span.content),
        Piece::Style("\x1b[0m"@),
    ];
    reveal_with_fuel(written, 4);
    reveal_with_fuel(span_pieces, 2);
    assert(seq![span].drop_last() =~= Seq::<SpanView>::empty());
    assert(span_pieces(seq![span]) =~= own);
    assert(written(own) =~= span.style + span.content + "\x1b[0m"@);
    if second.len() == 0 {
        assert(first + second =~= first);
        assert(written(span_pieces(first)) + written(span_pieces(second)) =~= written(
            span_pieces(first),
        ));
    } else {
        let less = second.drop_last();
        let last = seq![
            Piece::Style(second.last().style),
            Piece::Text(second.last().content),
            Piece::Style("\x1b[0m"@),
        ];
        law_spans_are_written_whole(first, less, span);
        assert((first + second).drop_last() =~= first + less);
        lemma_written_concat(span_pieces(first + less), last);
        lemma_written_concat(span_pieces(less), last);
        assert(written(span_pieces(first + second)) =~= written(span_pieces(first)) + written(
            span_pieces(second),
        ));
    }
}

/// A card shows all its lines, each in a row of its own and in their order,
/// between the two sides of its border: what is written for a line stands
/// behind the border and two spaces, with spaces up to the width of the widest
/// line, two more, and the border behind it.
pub proof fn law_a_card_shows_its_lines(lines: Seq<Seq<SpanView>>)
    ensures
        card_text(lines) == written_rows(card_rows(lines)),
        card_rows(lines).len() == lines.len() + 2,
        written(card_rows(lines)[0]) == "\x1b[1;38;5;244m"@ + "┏"@ + Seq::new(
            content_width(lines) + 4,
            |k: int| '━',
        ) + "┓"@ + "\x1b[0m"@,
        written(card_rows(lines)[lines.len() as int + 1]) == "\x1b[1;38;5;244m"@ + "┗"@ + Seq::new(
            content_width(lines) + 4,
            |k: int| '━',
        ) + "┛"@ + "\x1b[0m"@,
        forall|i: int|
            #![trigger lines[i]]
            0 <= i < lines.len() ==> line_width(lines[i]) <= content_width(lines) && written(
                card_rows(lines)[i + 1],
            ) == "\x1b[1;38;5;244m┃  \x1b[0m"@ + written(span_pieces(lines[i])) + Seq::new(
                (content_width(lines) - line_width(lines[i])) as nat,
                |k: int| ' ',
            ) + "  \x1b[1;38;5;244m┃"@,
{
    let width = content_width(lines);
    law_content_is_as_wide_as_its_widest_line(lines);
    reveal_with_fuel(written, 6);
    reveal_strlit("\x1b[1;38;5;244m");
    reveal_strlit("┃");
    reveal_strlit("  ");
    reveal_strlit("\x1b[0m");
    reveal_strlit("\x1b[1;38;5;244m┃  \x1b[0m");
    reveal_strlit("  \x1b[1;38;5;244m┃");
    let bar = Seq::new(width + 4, |k: int| '━');
    assert(repeated('━', width + 4) =~= bar);
    assert(written(border_row("┏"@, "┓"@, width)) =~= "\x1b[1;38;5;244m"@ + "┏"@ + bar + "┓"@
        + "\x1b[0m"@);
    assert(written(border_row("┗"@, "┛"@, width)) =~= "\x1b[1;38;5;244m"@ + "┗"@ + bar + "┛"@
        + "\x1b[0m"@);
    assert(written(row_start()) =~= "\x1b[1;38;5;244m┃  \x1b[0m"@);
    assert forall|i: int| #![trigger lines[i]] 0 <= i < lines.len() implies line_width(lines[i])
        <= width && written(card_rows(lines)[i + 1]) == "\x1b[1;38;5;244m┃  \x1b[0m"@ + written(
        span_pieces(lines[i]),
    ) + Seq::new((width - line_width(lines[i])) as nat, |k: int| ' ') + "  \x1b[1;38;5;244m┃"@ by {
        let spans = lines[i];
        let padding = (width - line_width(spans)) as nat;
        let spaces = Seq::new(padding, |k: int| ' ');
        assert(repeated(' ', padding) =~= spaces);
        assert(card_rows(lines)[i + 1] == line_row(spans, width));
        lemma_written_concat(row_start() + span_pieces(spans), row_end(padding));
        lemma_written_concat(row_start(), span_pieces(spans));
        assert(written(row_end(padding)) =~= spaces + "  \x1b[1;38;5;244m┃"@);
        assert(written(line_row(spans, width)) =~= written(row_start()) + written(
            span_pieces(spans),
        ) + spaces + "  \x1b[1;38;5;244m┃"@);
    }
}

/// Rows are written one below the other, each followed by one line feed.
pub proof fn law_rows_are_written_one_below_the_other(rows: Seq<Seq<Piece>>, row: Seq<Piece>)
    ensures
        written_rows(Seq::<Seq<Piece>>::empty()).len() == 0,
        written_rows(rows.push(row)) == written_rows(rows) + written(row) + "\n"@,
{
    assert(rows.push(row).drop_last() =~= rows);
}

/// What is said about lines leaves nothing out: each span's content and style
/// stand where they stand.
pub proof fn law_views_of_lines_are_faithful(lines: Seq<Line>)
    ensures
        lines_view(lines).len() == lines.len(),
        forall|i: int, j: int|
            #![trigger lines[i].spans@[j]]
            0 <= i < lines.len() && 0 <= j < lines[i].spans@.len() ==> {
                &&& lines_view(lines)[i].len() == lines[i].spans@.len()
                &&& lines_view(lines)[i][j].content == lines[i].spans@[j].content@
                &&& lines_view(lines)[i][j].style == lines[i].spans@[j].style@
            },
{
}

/// Whether the room that a card takes can be counted.
pub open spec fn card_fits(lines: Seq<Seq<SpanView>>) -> bool {
    content_width(lines) + 4 <= usize::MAX
}

impl Line {
    /// The number of characters in the line. It must be one that can be counted.
    pub fn width(&self) -> (r: usize)
        requires
            line_width(self@) <= usize::MAX,
        ensures
            r == line_width(self@),
    {
        self.checked_width().unwrap()
    }

    /// The number of characters in the line, if it can be counted.
    fn checked_width(&self) -> (r: Option<usize>)
        ensures
            match r {
                Some(width) => width == line_width(self@),
                None => line_width(self@) > usize::MAX,
            },
    {
        let mut sum: usize = 0;
        let mut i: usize = 0;
        assert(self@.take(0) =~= Seq::empty());
        while i < self.spans.len()
            invariant
                i <= self.spans@.len(),
                sum == line_width(self@.take(i as int)),
            decreases self.spans@.len() - i,
        {
            let own: usize = self.spans[i].content.as_str().unicode_len();
            proof {
                assert(self@.take(i + 1).drop_last() =~= self@.take(i as int));
                lemma_line_width_grows(self@, i + 1);
            }
            match sum.checked_add(own) {
                Some(more) => {
                    sum = more;
                },
                None => {
                    return None;
                },
            }
            i = i + 1;
        }
        assert(self@.take(i as int) =~= self@);
        Some(sum)
    }
}

/// No part of a line is wider than the line.
proof fn lemma_line_width_grows(spans: Seq<SpanView>, n: int)
    requires
        0 <= n <= spans.len(),
    ensures
        line_width(spans.take(n)) <= line_width(spans),
    decreases spans.len(),
{
    if n < spans.len() {
        lemma_line_width_grows(spans.drop_last(), n);
        assert(spans.drop_last().take(n) =~= spans.take(n));
    } else {
        assert(spans.take(n) =~= spans);
    }
}

/// The width of the content, if it can be counted.
fn checked_content_width(lines: &Vec<Line>) -> (r: Option<usize>)
    ensures
        match r {
            Some(width) => width == content_width(lines_view(lines@)),
            None => content_width(lines_view(lines@)) > usize::MAX,
        },
{
    let ghost all = lines_view(lines@);
    let mut width: usize = 0;
    let mut i: usize = 0;
    while i < lines.len()
        invariant
            i <= lines@.len(),
            all == lines_view(lines@),
            width == content_width(all.take(i as int)),
        decreases lines@.len() - i,
    {
        assert(all.take(i + 1).drop_last() =~= all.take(i as int));
        assert(all[i as int] == lines@[i as int]@);
        match lines[i].checked_width() {
            Some(own) => {
                if own > width {
                    width = own;
                }
            },
            None => {
                proof {
                    law_content_is_as_wide_as_its_widest_line(all);
                }
                return None;
            },
        }
        i = i + 1;
    }
    assert(all.take(i as int) =~= all);
    Some(width)
}

/// Whether the room that a card takes can be counted.
pub fn fits_card(lines: &Vec<Line>) -> (r: bool)
    ensures
        r == card_fits(lines_view(lines@)),
{
    match checked_content_width(lines) {
        Some(width) => width <= usize::MAX - 4,
        None => false,
    }
}

/// Appends a row of the border, with a line feed behind it.
pub(crate) fn push_border(card: &mut String, left: &str, right: &str, width: usize)
    requires
        width + 4 <= usize::MAX,
    ensures
        final(card)@ == old(card)@ + written(border_row(left@, right@, width as nat)) + "\n"@,
{
    card.append("\x1b[1;38;5;244m");
    card.append(left);
    push_repeated(card, '━', width + 4);
    card.append(right);
    card.append("\x1b[0m");
    card.append("\n");
    proof {
        reveal_with_fuel(written, 6);
        assert(card@ =~= old(card)@ + written(border_row(left@, right@, width as nat)) + "\n"@);
    }
}

/// Appends the row of a line.
fn push_line(card: &mut String, line: &Line, width: usize)
    requires
        line_width(line@) <= width,
    ensures
        final(card)@ == old(card)@ + written(line_row(line@, width as nat)) + "\n"@,
{
    let ghost start = card@;
    card.append("\x1b[1;38;5;244m");
    card.append("┃");
    card.append("  ");
    card.append("\x1b[0m");
    proof {
        reveal_with_fuel(written, 5);
        assert(card@ =~= start + written(row_start()));
    }
    let mut i: usize = 0;
    assert(line@.take(0) =~= Seq::empty());
    assert(card@ =~= start + written(row_start()) + written(span_pieces(line@.take(0))));
    while i < line.spans.len()
        invariant
            i <= line.spans@.len(),
            card@ == start + written(row_start()) + written(span_pieces(line@.take(i as int))),
        decreases line.spans@.len() - i,
    {
        let ghost before = card@;
        let span = &line.spans[i];
        card.append(span.style);
        card.append(span.content.as_str());
        card.append("\x1b[0m");
        proof {
            let spans = line@.take(i + 1);
            assert(spans.drop_last() =~= line@.take(i as int));
            let own = seq![
                Piece::Style(span@.style),
                Piece::Text(span@.content),
                Piece::Style("\x1b[0m"@),
            ];
            assert(spans.last() == span@);
            lemma_written_concat(span_pieces(spans.drop_last()), own);
            reveal_with_fuel(written, 4);
            assert(written(own) =~= span@.style + span@.content + "\x1b[0m"@);
            assert(card@ =~= before + written(own));
            assert(card@ =~= start + written(row_start()) + written(span_pieces(spans)));
        }
        i = i + 1;
    }
    assert(line@.take(i as int) =~= line@);
    let ghost before = card@;
    let padding: usize = width - line.width();
    push_repeated(card, ' ', padding);
    card.append("  ");
    card.append("\x1b[1;38;5;244m");
    card.append("┃");
    card.append("\n");
    proof {
        let end = row_end(padding as nat);
        reveal_with_fuel(written, 5);
        assert(card@ =~= before + written(end) + "\n"@);
        lemma_written_concat(row_start() + span_pieces(line@), end);
        lemma_written_concat(row_start(), span_pieces(line@));
        assert(card@ =~= start + written(line_row(line@, width as nat)) + "\n"@);
    }
}

/// The card with some lines. The room that it takes must be such that it can
/// be counted.
pub fn bordered_card(lines: &Vec<Line>) -> (r: String)
    requires
        card_fits(lines_view(lines@)),
    ensures
        r@ == card_text(lines_view(lines@)),
{
    let ghost all = lines_view(lines@);
    let ghost rows = card_rows(all);
    let width: usize = checked_content_width(lines).unwrap();
    let mut card = String::new();
    push_border(&mut card, "┏", "┓", width);
    proof {
        reveal_with_fuel(written_rows, 2);
        assert(rows.take(1).drop_last() =~= Seq::empty());
        assert(card@ =~= written_rows(rows.take(1)));
        law_content_is_as_wide_as_its_widest_line(all);
    }
    let mut i: usize = 0;
    while i < lines.len()
        invariant
            i <= lines@.len(),
            all == lines_view(lines@),
            rows == card_rows(all),
            width == content_width(all),
            forall|k: int| 0 <= k < all.len() ==> line_width(#[trigger] all[k]) <= width,
            card@ == written_rows(rows.take(i + 1)),
        decreases lines@.len() - i,
    {
        assert(all[i as int] == lines@[i as int]@);
        push_line(&mut card, &lines[i], width);
        i = i + 1;
        assert(rows.take(i + 1).drop_last() =~= rows.take(i as int));
        assert(rows.take(i + 1).last() == line_row(all[i - 1], width as nat));
    }
    push_border(&mut card, "┗", "┛", width);
    assert(rows.drop_last() =~= rows.take(i + 1));
    assert(rows.last() == border_row("┗"@, "┛"@, width as nat));
    card
}

/// The room that a card takes can be counted if and only if that of each of its
/// lines can, with two spaces on either side.
pub proof fn law_a_card_fits_if_each_line_does(lines: Seq<Seq<SpanView>>)
    ensures
        card_fits(lines) <==> forall|i: int|
            0 <= i < lines.len() ==> line_width(#[trigger] lines[i]) + 4 <= usize::MAX,
{
    law_content_is_as_wide_as_its_widest_line(lines);
}

} // verus!
