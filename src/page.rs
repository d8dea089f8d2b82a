//! The status page mapper: from the HTML of the connection-status page to a
//! `StartupProcedure`, or an `ExtractionError` when the page does not hold it.

use unhtml::scraper::{Html, Selector};
use unhtml::Text;
use vstd::prelude::*;

verus! {

/// The text of the element reached from the root of the parsed document `html` by
/// taking the first descendant matching `outer`, inside it the first matching
/// `middle`, and inside that the first matching `inner`; `None` when a step finds
/// nothing.
pub uninterp spec fn nested_text(
    html: Seq<char>,
    outer: Seq<char>,
    middle: Seq<char>,
    inner: Seq<char>,
) -> Option<Seq<char>>;

/// Relies on scraper's `Html::parse_document`, `Selector::parse` and
/// `ElementRef::select`, and on unhtml's `Text::inner_text` for a `String` (the
/// trimmed text segments of the element, joined): the chain of first matches that
/// unhtml's derived `FromHtml` walks for a nested field. The result depends on the
/// four strings alone.
#[verifier::external_body]
fn select_nested_text(html: &str, outer: &str, middle: &str, inner: &str) -> (r: Option<String>)
    ensures
        opt_view(r) == nested_text(html@, outer@, middle@, inner@),
{
    let doc = Html::parse_document(html);
    let (outer, middle, inner) = (
        Selector::parse(outer).ok()?,
        Selector::parse(middle).ok()?,
        Selector::parse(inner).ok()?,
    );
    let table = doc.root_element().select(&outer).next()?;
    let row = table.select(&middle).next()?;
    let cell = row.select(&inner).next()?;
    let text: unhtml::Result<String> = std::iter::once(cell).inner_text();
    text.ok()
}

pub open spec fn opt_view(o: Option<String>) -> Option<Seq<char>> {
    match o {
        Some(s) => Some(s@),
        None => None,
    }
}

/// One row of the startup table: the text of its second cell, and of its third.
#[derive(Debug)]
pub struct StatusEntry {
    pub status: String,
    pub comment: String,
}

impl View for StatusEntry {
    type V = (Seq<char>, Seq<char>);

    open spec fn view(&self) -> (Seq<char>, Seq<char>) {
        (self.status@, self.comment@)
    }
}

/// The six stages of the modem's startup table, in the table's order.
#[derive(Debug)]
pub struct StartupProcedure {
    pub acquire_downstream_channel: StatusEntry,
    pub connectivity_state: StatusEntry,
    pub boot_state: StatusEntry,
    pub configuration_file: StatusEntry,
    pub security: StatusEntry,
    pub docsis_network_enabled: StatusEntry,
}

impl View for StartupProcedure {
    type V = Seq<(Seq<char>, Seq<char>)>;

    open spec fn view(&self) -> Seq<(Seq<char>, Seq<char>)> {
        seq![
            self.acquire_downstream_channel@,
            self.connectivity_state@,
            self.boot_state@,
            self.configuration_file@,
            self.security@,
            self.docsis_network_enabled@,
        ]
    }
}

/// The page did not hold the startup table: `row` is the ordinal (counted from 1)
/// of the first table row whose status cell could not be found.
#[derive(Clone, Copy, Debug, PartialEq, Eq, Structural)]
pub struct ExtractionError {
    pub row: usize,
}

/// Number of stages in the startup table.
pub const STAGES: usize = 6;

/// Ordinal of the table row that holds the first stage; the rows above it are headings.
pub const FIRST_STAGE_ROW: usize = 3;

/// An entry from the text of a row's status cell and comment cell: the status is
/// required, a missing comment reads as empty.
pub open spec fn entry_of(status: Option<Seq<char>>, comment: Option<Seq<char>>) -> Option<
    (Seq<char>, Seq<char>),
> {
    match status {
        Some(s) => Some(
            (
                s,
                match comment {
                    Some(c) => c,
                    None => Seq::empty(),
                },
            ),
        ),
        None => None,
    }
}

/// Builds the entry of one row from the text of its status cell and of its comment
/// cell, each `None` where the cell is absent.
pub fn status_entry(status: Option<String>, comment: Option<String>) -> (r: Option<StatusEntry>)
    ensures
        match r {
            Some(e) => entry_of(opt_view(status), opt_view(comment)) == Some(e@),
            None => entry_of(opt_view(status), opt_view(comment)) is None,
        },
{
    match status {
        Some(s) => {
            let c = match comment {
                Some(c) => c,
                None => String::new(),
            };
            Some(StatusEntry { status: s, comment: c })
        },
        None => None,
    }
}


/// What the logic reads of the page: for each stage, in order, the text of the
/// status cell and of the comment cell, `None` where a cell is absent.
pub type Cells = Seq<(Option<Seq<char>>, Option<Seq<char>>)>;

pub open spec fn cells_view(v: Seq<(Option<String>, Option<String>)>) -> Cells {
    v.map_values(|c: (Option<String>, Option<String>)| (opt_view(c.0), opt_view(c.1)))
}

pub open spec fn all_present(cells: Cells) -> bool {
    forall|k: int| 0 <= k < STAGES ==> (#[trigger] cells[k]).0 is Some
}

/// Stage `k` is the first whose status cell is absent.
pub open spec fn first_missing(cells: Cells, k: int) -> bool {
    &&& 0 <= k < STAGES
    &&& cells[k].0 is None
    &&& forall|j: int| 0 <= j < k ==> (#[trigger] cells[j]).0 is Some
}

/// The procedure that the cells give, entry by entry.
pub open spec fn procedure_matches(p: Seq<(Seq<char>, Seq<char>)>, cells: Cells) -> bool {
    forall|k: int| 0 <= k < STAGES ==> entry_of(cells[k].0, cells[k].1) == Some(#[trigger] p[k])
}

fn clone_cell(c: &Option<String>) -> (r: Option<String>)
    ensures
        opt_view(r) == opt_view(*c),
{
    match c {
        Some(s) => Some(s.clone()),
        None => None,
    }
}

fn stage_entry(cells: &Vec<(Option<String>, Option<String>)>, k: usize) -> (r: Result<
    StatusEntry,
    ExtractionError,
>)
    requires
        k < cells@.len(),
        k < STAGES,
    ensures
        match r {
            Ok(e) => entry_of(cells_view(cells@)[k as int].0, cells_view(cells@)[k as int].1)
                == Some(e@),
            Err(x) => cells_view(cells@)[k as int].0 is None && x.row == k + FIRST_STAGE_ROW,
        },
{
    let (s, c) = &cells[k];
    match status_entry(clone_cell(s), clone_cell(c)) {
        Some(e) => Ok(e),
        None => Err(ExtractionError { row: k + FIRST_STAGE_ROW }),
    }
}

/// Builds the startup procedure from the cells of its six rows; fails on the
/// first row whose status cell is absent.
pub fn procedure_from_cells(cells: &Vec<(Option<String>, Option<String>)>) -> (r: Result<
    StartupProcedure,
    ExtractionError,
>)
    requires
        cells@.len() == STAGES,
    ensures
        r is Ok <==> all_present(cells_view(cells@)),
        match r {
            Ok(p) => procedure_matches(p@, cells_view(cells@)),
            Err(e) => first_missing(cells_view(cells@), e.row - FIRST_STAGE_ROW),
        },
{
    let ghost cv = cells_view(cells@);
    let a = match stage_entry(cells, 0) {
        Ok(e) => e,
        Err(x) => return Err(x),
    };
    let b = match stage_entry(cells, 1) {
        Ok(e) => e,
        Err(x) => return Err(x),
    };
    let c = match stage_entry(cells, 2) {
        Ok(e) => e,
        Err(x) => return Err(x),
    };
    let d = match stage_entry(cells, 3) {
        Ok(e) => e,
        Err(x) => return Err(x),
    };
    let e = match stage_entry(cells, 4) {
        Ok(e) => e,
        Err(x) => return Err(x),
    };
    let f = match stage_entry(cells, 5) {
        Ok(e) => e,
        Err(x) => return Err(x),
    };
    let p = StartupProcedure {
        acquire_downstream_channel: a,
        connectivity_state: b,
        boot_state: c,
        configuration_file: d,
        security: e,
        docsis_network_enabled: f,
    };
    assert(all_present(cv));
    Ok(p)
}

/// Selector of the startup table on the connection-status page.
pub open spec fn table_selector() -> Seq<char> {
    ".content table:nth-of-type(1)"@
}

/// Selector of the status cell within a row.
pub open spec fn status_selector() -> Seq<char> {
    "td:nth-of-type(2)"@
}

/// Selector of the comment cell within a row.
pub open spec fn comment_selector() -> Seq<char> {
    "td:nth-of-type(3)"@
}

/// Selector of the row of stage `k`, counted from 0.
pub open spec fn row_selector(k: int) -> Seq<char> {
    if k == 0 {
        "tr:nth-of-type(3)"@
    } else if k == 1 {
        "tr:nth-of-type(4)"@
    } else if k == 2 {
        "tr:nth-of-type(5)"@
    } else if k == 3 {
        "tr:nth-of-type(6)"@
    } else if k == 4 {
        "tr:nth-of-type(7)"@
    } else {
        "tr:nth-of-type(8)"@
    }
}

fn stage_row_selector(k: usize) -> (r: &'static str)
    ensures
        r@ == row_selector(k as int),
{
    if k == 0 {
        "tr:nth-of-type(3)"
    } else if k == 1 {
        "tr:nth-of-type(4)"
    } else if k == 2 {
        "tr:nth-of-type(5)"
    } else if k == 3 {
        "tr:nth-of-type(6)"
    } else if k == 4 {
        "tr:nth-of-type(7)"
    } else {
        "tr:nth-of-type(8)"
    }
}

/// The cells of the six stage rows of the page `html`.
pub open spec fn page_cells(html: Seq<char>) -> Cells {
    Seq::new(
        STAGES as nat,
        |k: int|
            (
                nested_text(html, table_selector(), row_selector(k), status_selector()),
                nested_text(html, table_selector(), row_selector(k), comment_selector()),
            ),
    )
}

/// Reads the startup procedure off the connection-status page `html`: rows 3 to 8
/// of the first table of the content area, the second cell of each row as the
/// status (required) and the third as the comment (empty where absent).
pub fn map_status_page(html: &str) -> (r: Result<StartupProcedure, ExtractionError>)
    ensures
        r is Ok <==> all_present(page_cells(html@)),
        match r {
            Ok(p) => procedure_matches(p@, page_cells(html@)),
            Err(e) => first_missing(page_cells(html@), e.row - FIRST_STAGE_ROW),
        },
{
    let mut cells: Vec<(Option<String>, Option<String>)> = Vec::new();
    let mut k: usize = 0;
    while k < STAGES
        invariant
            k <= STAGES,
            cells_view(cells@) =~= page_cells(html@).take(k as int),
        decreases STAGES - k,
    {
        let row = stage_row_selector(k);
        let status = select_nested_text(html, ".content table:nth-of-type(1)", row, "td:nth-of-type(2)");
        let comment = select_nested_text(html, ".content table:nth-of-type(1)", row, "td:nth-of-type(3)");
        let ghost before = cells@;
        cells.push((status, comment));
        assert(cells@ =~= before.push((status, comment)));
        assert(page_cells(html@)[k as int] == (opt_view(status), opt_view(comment)));
        assert(cells_view(cells@) =~= cells_view(before).push((opt_view(status), opt_view(comment))));
        k = k + 1;
        assert(cells_view(cells@) =~= page_cells(html@).take(k as int));
    }
    assert(page_cells(html@).take(STAGES as int) =~= page_cells(html@));
    procedure_from_cells(&cells)
}

} // verus!
