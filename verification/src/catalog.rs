//! The catalogue: its lines, the rows that can be used, and the choice of one
//! of them by its ordinal.

use rand::Rng;
use vstd::prelude::*;

verus! {

/// Index of the artist's name in a row.
pub const ARTIST_IDX: usize = 1;

/// Index of the album's title in a row.
pub const ALBUM_IDX: usize = 2;

/// Index of the release identifier in a row.
pub const RELEASE_ID_IDX: usize = 7;

/// Number of fields that a row needs for all three indices to be in range.
pub const MIN_FIELDS: usize = 8;

/// What the user is told of each line that is passed over.
pub const SKIPPED_LINE_NOTICE: &'static str = "Skipping invalid line!";

/// A line is usable when it was parsed and has every field that is read from a row.
pub open spec fn usable(line: Option<Seq<Seq<char>>>) -> bool {
    line matches Some(fields) && fields.len() >= MIN_FIELDS
}

/// The number of usable lines among the first `end` lines.
pub open spec fn usable_before(lines: Seq<Option<Seq<Seq<char>>>>, end: int) -> nat
    decreases end,
{
    if end <= 0 {
        0
    } else {
        usable_before(lines, end - 1) + if usable(lines[end - 1]) {
            1nat
        } else {
            0nat
        }
    }
}

/// The usable lines, in their order, each as its fields.
pub open spec fn usable_rows(lines: Seq<Option<Seq<Seq<char>>>>) -> Seq<Seq<Seq<char>>>
    decreases lines.len(),
{
    if lines.len() == 0 {
        Seq::empty()
    } else if usable(lines.last()) {
        usable_rows(lines.drop_last()).push(lines.last()->0)
    } else {
        usable_rows(lines.drop_last())
    }
}

/// Line `at` is the usable line that exactly `ordinal` usable lines precede.
pub open spec fn is_pick(lines: Seq<Option<Seq<Seq<char>>>>, ordinal: int, at: int) -> bool {
    &&& 0 <= at < lines.len()
    &&& usable(lines[at])
    &&& usable_before(lines, at) == ordinal
}

/// A row of the catalogue with at least `MIN_FIELDS` fields.
#[derive(Debug, PartialEq, Eq)]
pub struct CatalogRow {
    fields: Vec<String>,
}

impl View for CatalogRow {
    type V = Seq<Seq<char>>;

    closed spec fn view(&self) -> Seq<Seq<char>> {
        self.fields.deep_view()
    }
}

impl CatalogRow {
    #[verifier::type_invariant]
    spec fn has_all_fields(&self) -> bool {
        self.fields.len() >= MIN_FIELDS
    }

    /// Makes a row of the fields given, if there are enough of them.
    pub fn new(fields: Vec<String>) -> (row: Option<CatalogRow>)
        ensures
            match row {
                Some(r) => fields.len() >= MIN_FIELDS && r@ == fields.deep_view(),
                None => fields.len() < MIN_FIELDS,
            },
    {
        if fields.len() >= MIN_FIELDS {
            Some(CatalogRow { fields })
        } else {
            None
        }
    }

    /// The number of fields, which is never below `MIN_FIELDS`.
    pub fn len(&self) -> (n: usize)
        ensures
            n == self@.len(),
            n >= MIN_FIELDS,
    {
        proof {
            use_type_invariant(self);
        }
        self.fields.len()
    }

    /// The artist's name.
    pub fn artist(&self) -> (name: &str)
        ensures
            name@ == self@[ARTIST_IDX as int],
    {
        proof {
            use_type_invariant(self);
        }
        self.fields[ARTIST_IDX].as_str()
    }

    /// The album's title.
    pub fn album(&self) -> (title: &str)
        ensures
            title@ == self@[ALBUM_IDX as int],
    {
        proof {
            use_type_invariant(self);
        }
        self.fields[ALBUM_IDX].as_str()
    }

    /// The identifier of the release at the remote catalogue.
    pub fn release_id(&self) -> (id: &str)
        ensures
            id@ == self@[RELEASE_ID_IDX as int],
    {
        proof {
            use_type_invariant(self);
        }
        self.fields[RELEASE_ID_IDX].as_str()
    }
}

/// The outcome of looking for a row: the row, if one was reached, the number
/// of lines that were read for it, and how many of those were passed over as
/// unusable.
#[derive(Debug, PartialEq, Eq)]
pub struct Selection {
    pub row: Option<CatalogRow>,
    pub scanned: usize,
    pub skipped: usize,
}

/// An outcome as numbers and characters.
pub ghost struct SelectionView {
    pub row: Option<Seq<Seq<char>>>,
    pub scanned: nat,
    pub skipped: nat,
}

impl View for Selection {
    type V = SelectionView;

    open spec fn view(&self) -> SelectionView {
        SelectionView {
            row: match self.row {
                Some(row) => Some(row@),
                None => None,
            },
            scanned: self.scanned as nat,
            skipped: self.skipped as nat,
        }
    }
}

/// `found` is the outcome of looking in `lines` for the usable line that
/// `ordinal` usable lines precede: the scan ends with that line, or with the
/// last line where there are too few usable ones, and it passes over every
/// unusable line on its way.
pub open spec fn selects(
    lines: Seq<Option<Seq<Seq<char>>>>,
    ordinal: int,
    found: SelectionView,
) -> bool {
    &&& found.scanned <= lines.len()
    &&& found.skipped + usable_before(lines, found.scanned as int) == found.scanned
    &&& match found.row {
        Some(row) => is_pick(lines, ordinal, found.scanned - 1) && lines[found.scanned - 1]
            == Some(row),
        None => found.scanned == lines.len() && usable_before(lines, lines.len() as int)
            <= ordinal,
    }
}

/// Looks for the usable line of `lines` that `ordinal` usable lines precede,
/// reading from the first line on.
pub fn select_record(lines: &Vec<Option<Vec<String>>>, ordinal: usize) -> (found: Selection)
    ensures
        selects(lines.deep_view(), ordinal as int, found@),
{
    let mut i: usize = 0;
    let mut seen: usize = 0;
    while i < lines.len()
        invariant
            i <= lines.len(),
            seen <= ordinal,
            seen <= i,
            seen == usable_before(lines.deep_view(), i as int),
        decreases lines.len() - i,
    {
        if let Some(fields) = &lines[i] {
            assert(lines.deep_view()[i as int] == Some(fields.deep_view()));
            if fields.len() >= MIN_FIELDS {
                if seen == ordinal {
                    let row = CatalogRow { fields: fields.clone() };
                    assert(row@ =~= fields.deep_view());
                    return Selection { row: Some(row), scanned: i + 1, skipped: i - seen };
                }
                seen += 1;
            }
        }
        i += 1;
    }
    Selection { row: None, scanned: i, skipped: i - seen }
}

/// Counts the usable lines.
pub fn count_usable(lines: &Vec<Option<Vec<String>>>) -> (count: usize)
    ensures
        count == usable_before(lines.deep_view(), lines.len() as int),
{
    let mut i: usize = 0;
    let mut count: usize = 0;
    while i < lines.len()
        invariant
            i <= lines.len(),
            count <= i,
            count == usable_before(lines.deep_view(), i as int),
        decreases lines.len() - i,
    {
        if let Some(fields) = &lines[i] {
            assert(lines.deep_view()[i as int] == Some(fields.deep_view()));
            if fields.len() >= MIN_FIELDS {
                count += 1;
            }
        }
        i += 1;
    }
    count
}

/// The lines that a `csv::Reader` without a header row reads from `data`, in
/// their order: `None` for a line that it reports an error for, the fields of
/// the record for every other.
pub uninterp spec fn csv_records(data: Seq<u8>) -> Seq<Option<Seq<Seq<char>>>>;

/// Reads `data` with a `csv::Reader` made by `csv::ReaderBuilder` with
/// `has_headers(false)`, and collects what `Reader::records` yields.
///
/// Believed, not proved: what is read depends on `data` alone.
#[verifier::external_body]
fn read_records(data: &[u8]) -> (lines: Vec<Option<Vec<String>>>)
    ensures
        lines.deep_view() == csv_records(data@),
{
    let mut reader = csv::ReaderBuilder::new().has_headers(false).from_reader(data);
    reader
        .records()
        .map(|line| line.ok().map(|record| record.iter().map(String::from).collect()))
        .collect()
}

/// Calls `rand::thread_rng` and `Rng::gen_range` with the range from `low`
/// up to, and without, `high`.
///
/// Believed, not proved: the number drawn lies in that range. An empty range
/// is left out: `gen_range` panics on it.
#[verifier::external_body]
fn draw(low: usize, high: usize) -> (drawn: usize)
    requires
        low < high,
    ensures
        low <= drawn < high,
{
    rand::thread_rng().gen_range(low..high)
}

/// Picks a row of the catalogue `data` at random.
///
/// The first usable line is taken for the header and is never picked. Of the
/// usable lines after it, one is picked by an ordinal that is drawn from 1 up
/// to, and without, the number of usable lines: unusable lines take no share
/// of the draw, and a row is handed out whenever there is one to pick. Where
/// there is none, no line is read for a row.
pub fn get_random_record_from_csv(data: &[u8]) -> (found: Selection)
    ensures
        ({
            let lines = csv_records(data@);
            let n = usable_before(lines, lines.len() as int);
            &&& n < 2 ==> found@ == (SelectionView { row: None, scanned: 0, skipped: 0 })
            &&& n >= 2 ==> found@.row is Some && exists|ordinal: int|
                1 <= ordinal < n && #[trigger] selects(lines, ordinal, found@)
        }),
{
    let lines = read_records(data);
    let n: usize = count_usable(&lines);
    assert(lines.deep_view().len() == lines.len());
    if n < 2 {
        Selection { row: None, scanned: 0, skipped: 0 }
    } else {
        let ordinal: usize = draw(1, n);
        let found = select_record(&lines, ordinal);
        assert(selects(csv_records(data@), ordinal as int, found@));
        found
    }
}

/// The count of usable lines never falls as more lines are counted.
pub proof fn lemma_usable_before_grows(lines: Seq<Option<Seq<Seq<char>>>>, a: int, b: int)
    requires
        a <= b,
    ensures
        usable_before(lines, a) <= usable_before(lines, b),
    decreases b - a,
{
    if a < b {
        lemma_usable_before_grows(lines, a, b - 1);
    }
}

/// An ordinal picks at most one line, and two ordinals never pick the same.
pub proof fn lemma_pick_is_unique(
    lines: Seq<Option<Seq<Seq<char>>>>,
    first: int,
    second: int,
    a: int,
    b: int,
)
    requires
        is_pick(lines, first, a),
        is_pick(lines, second, b),
    ensures
        first == second <==> a == b,
{
    if a < b {
        lemma_usable_before_grows(lines, a + 1, b);
    }
    if b < a {
        lemma_usable_before_grows(lines, b + 1, a);
    }
}

/// Every ordinal below the number of usable lines picks a line, and every
/// usable line is picked by the number of usable lines before it. Together
/// with `lemma_pick_is_unique`: those ordinals and the usable lines
/// correspond one to one.
pub proof fn lemma_ordinals_reach_usable_lines(lines: Seq<Option<Seq<Seq<char>>>>, ordinal: int)
    ensures
        0 <= ordinal < usable_before(lines, lines.len() as int) ==> exists|at: int|
            is_pick(lines, ordinal, at),
        forall|at: int|
            0 <= at < lines.len() && usable(#[trigger] lines[at]) ==> is_pick(
                lines,
                usable_before(lines, at) as int,
                at,
            ) && usable_before(lines, at) < usable_before(lines, lines.len() as int),
{
    if 0 <= ordinal < usable_before(lines, lines.len() as int) {
        let at = lemma_find_pick(lines, ordinal, lines.len() as int);
        assert(is_pick(lines, ordinal, at));
    }
    assert forall|at: int| 0 <= at < lines.len() && usable(#[trigger] lines[at]) implies is_pick(
        lines,
        usable_before(lines, at) as int,
        at,
    ) && usable_before(lines, at) < usable_before(lines, lines.len() as int) by {
        lemma_usable_before_grows(lines, at + 1, lines.len() as int);
    }
}

/// Among the first `end` lines, the line that `ordinal` picks.
proof fn lemma_find_pick(lines: Seq<Option<Seq<Seq<char>>>>, ordinal: int, end: int) -> (at: int)
    requires
        0 <= end <= lines.len(),
        0 <= ordinal < usable_before(lines, end),
    ensures
        at < end,
        is_pick(lines, ordinal, at),
    decreases end,
{
    if usable(lines[end - 1]) && usable_before(lines, end - 1) == ordinal {
        end - 1
    } else {
        lemma_find_pick(lines, ordinal, end - 1)
    }
}

/// The lines that a draw can give: some ordinal from 1 up to, and without,
/// the number of usable lines picks line `at` exactly when that line is
/// usable and a usable line stands before it. So every usable line but the
/// first can be drawn, and by `lemma_pick_is_unique` each by one ordinal
/// only: the range of the draw holds one value for each of them.
pub proof fn lemma_lines_that_can_be_drawn(lines: Seq<Option<Seq<Seq<char>>>>, at: int)
    requires
        0 <= at < lines.len(),
    ensures
        (exists|ordinal: int|
            1 <= ordinal < usable_before(lines, lines.len() as int) && is_pick(lines, ordinal, at))
            <==> (usable(lines[at]) && usable_before(lines, at) >= 1),
{
    if usable(lines[at]) && usable_before(lines, at) >= 1 {
        lemma_usable_before_grows(lines, at + 1, lines.len() as int);
        assert(is_pick(lines, usable_before(lines, at) as int, at));
    }
}

/// Among the first `end` lines there are as many usable lines as they have
/// usable rows.
pub proof fn lemma_usable_rows_are_counted(lines: Seq<Option<Seq<Seq<char>>>>, end: int)
    requires
        0 <= end <= lines.len(),
    ensures
        usable_rows(lines.take(end)).len() == usable_before(lines, end),
    decreases end,
{
    if end > 0 {
        lemma_usable_rows_are_counted(lines, end - 1);
        assert(lines.take(end).drop_last() =~= lines.take(end - 1));
        assert(lines.take(end).last() == lines[end - 1]);
    }
}

/// The line that an ordinal picks is the usable row of that number, among
/// any number of lines that reaches it.
proof fn lemma_pick_among_first(
    lines: Seq<Option<Seq<Seq<char>>>>,
    ordinal: int,
    at: int,
    end: int,
)
    requires
        is_pick(lines, ordinal, at),
        at < end <= lines.len(),
    ensures
        ordinal < usable_rows(lines.take(end)).len(),
        usable_rows(lines.take(end))[ordinal] == lines[at]->0,
    decreases end,
{
    assert(lines.take(end).drop_last() =~= lines.take(end - 1));
    assert(lines.take(end).last() == lines[end - 1]);
    if end == at + 1 {
        lemma_usable_rows_are_counted(lines, at);
    } else {
        lemma_pick_among_first(lines, ordinal, at, end - 1);
    }
}

/// An outcome hands out the usable row whose number is the ordinal, counted
/// from 0, and no row where the usable rows are too few.
pub proof fn lemma_selection_is_the_row_of_that_number(
    lines: Seq<Option<Seq<Seq<char>>>>,
    ordinal: int,
    found: SelectionView,
)
    requires
        0 <= ordinal,
        selects(lines, ordinal, found),
    ensures
        found.row == if ordinal < usable_rows(lines).len() {
            Some(usable_rows(lines)[ordinal])
        } else {
            None
        },
{
    assert(lines.take(lines.len() as int) =~= lines);
    lemma_usable_rows_are_counted(lines, lines.len() as int);
    if found.row is Some {
        lemma_pick_among_first(lines, ordinal, found.scanned - 1, lines.len() as int);
    }
}

/// An unusable line changes nothing, wherever it is put: the usable rows stay
/// what they were, so the range of the draw and the row behind each ordinal
/// are those of the catalogue without it.
pub proof fn lemma_unusable_line_changes_nothing(
    lines: Seq<Option<Seq<Seq<char>>>>,
    at: int,
    line: Option<Seq<Seq<char>>>,
)
    requires
        0 <= at <= lines.len(),
        !usable(line),
    ensures
        usable_rows(lines.insert(at, line)) == usable_rows(lines),
        usable_before(lines.insert(at, line), lines.len() as int + 1) == usable_before(
            lines,
            lines.len() as int,
        ),
    decreases lines.len(),
{
    let longer = lines.insert(at, line);
    if at == lines.len() {
        assert(longer.drop_last() =~= lines);
        assert(longer.last() == line);
    } else {
        lemma_unusable_line_changes_nothing(lines.drop_last(), at, line);
        assert(longer.drop_last() =~= lines.drop_last().insert(at, line));
        assert(longer.last() == lines.last());
    }
    assert(longer.take(longer.len() as int) =~= longer);
    assert(lines.take(lines.len() as int) =~= lines);
    lemma_usable_rows_are_counted(longer, longer.len() as int);
    lemma_usable_rows_are_counted(lines, lines.len() as int);
}

/// The lines and the ordinal leave one outcome only.
pub proof fn lemma_selection_is_determined(
    lines: Seq<Option<Seq<Seq<char>>>>,
    ordinal: int,
    one: SelectionView,
    other: SelectionView,
)
    requires
        selects(lines, ordinal, one),
        selects(lines, ordinal, other),
    ensures
        one == other,
{
    if one.row is Some && other.row is Some {
        lemma_pick_is_unique(lines, ordinal, ordinal, one.scanned - 1, other.scanned - 1);
    } else if one.row is Some {
        lemma_usable_before_grows(lines, one.scanned as int, lines.len() as int);
    } else if other.row is Some {
        lemma_usable_before_grows(lines, other.scanned as int, lines.len() as int);
    }
}

/// A row that was selected stands in the catalogue as a usable line: a line
/// that was not parsed, or that is too short, is never handed out.
pub proof fn lemma_selected_row_is_usable(
    lines: Seq<Option<Seq<Seq<char>>>>,
    ordinal: int,
    found: SelectionView,
)
    requires
        selects(lines, ordinal, found),
        found.row is Some,
    ensures
        exists|at: int| 0 <= at < lines.len() && #[trigger] lines[at] == found.row && usable(lines[at]),
        forall|at: int| 0 <= at < lines.len() && !usable(#[trigger] lines[at]) ==> lines[at] != found.row,
{
    let at = found.scanned - 1;
    assert(lines[at] == found.row && usable(lines[at]));
}

} // verus!
