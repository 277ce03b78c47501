//! Reading the results page: the page is parsed and queried by the `scraper`
//! crate, and what the queries give is laid down as rows of cells.

use crate::boxscore::{BoxScore, BoxScoreView};
use crate::extract::{
    box_score_of, is_outcome_of, outcome_view, parse_rows, Cell, CellView, ParseError,
};
use scraper::error::SelectorErrorKind;
use scraper::{ElementRef, Html, Selector};
use vstd::prelude::*;
use vstd::string::StringExecFns;

verus! {

/// A parsed HTML document of the `scraper` crate. Nothing inside it is
/// visible to the verifier.
#[verifier::external_type_specification]
#[verifier::external_body]
pub struct ExHtml(Html);

/// A compiled group of CSS selectors of the `scraper` crate.
#[verifier::external_type_specification]
#[verifier::external_body]
pub struct ExSelector(Selector);

/// A reference to one element of a parsed document.
#[verifier::external_type_specification]
#[verifier::external_body]
pub struct ExElementRef<'a>(ElementRef<'a>);

/// The reason for which `scraper` refuses the text of a selector.
#[verifier::external_type_specification]
#[verifier::external_body]
pub struct ExSelectorErrorKind(SelectorErrorKind);

/// The document that `scraper` builds from the text of a page.
pub uninterp spec fn html_document(text: Seq<char>) -> Html;

/// The selector that `scraper` compiles from a text, if it accepts the text.
pub uninterp spec fn css_selector(text: Seq<char>) -> Option<Selector>;

/// The elements of a document that match a selector, in the order in which
/// `scraper` yields them.
pub uninterp spec fn document_matches(doc: Html, selector: Selector) -> Seq<ElementRef<'static>>;

/// The elements below `element` that match a selector, in the order in which
/// `scraper` yields them.
pub uninterp spec fn element_matches(element: ElementRef<'static>, selector: Selector) -> Seq<
    ElementRef<'static>,
>;

/// The text nodes below an element, joined in the order in which `scraper`
/// yields them.
pub uninterp spec fn element_text(element: ElementRef<'static>) -> Seq<char>;

/// `Html::parse_document` builds a document from any text; the document
/// depends on the text alone.
pub assume_specification[ scraper::Html::parse_document ](document: &str) -> (doc: scraper::Html)
    ensures
        doc == html_document(document@),
;

/// `Selector::parse` compiles a selector group or refuses the text; which of
/// the two, and the selector, depend on the text alone.
pub assume_specification[ scraper::Selector::parse ](selectors: &str) -> (parsed: Result<
    scraper::Selector,
    scraper::error::SelectorErrorKind,
>)
    ensures
        match parsed {
            Ok(selector) => css_selector(selectors@) == Some(selector),
            Err(_) => css_selector(selectors@) is None,
        },
;

/// Calls `Html::select` and collects the elements that its iterator yields,
/// in that order.
#[verifier::external_body]
fn select_in_document<'a>(doc: &'a Html, selector: &Selector) -> (found: Vec<ElementRef<'a>>)
    ensures
        found@ == document_matches(*doc, *selector),
{
    doc.select(selector).collect()
}

/// Calls `ElementRef::select` and collects the elements that its iterator
/// yields, in that order.
#[verifier::external_body]
fn select_in_element<'a>(element: &ElementRef<'a>, selector: &Selector) -> (found: Vec<
    ElementRef<'a>,
>)
    ensures
        found@ == element_matches(*element, *selector),
{
    element.select(selector).collect()
}

/// Calls `ElementRef::text` and joins the text nodes that its iterator
/// yields, in that order.
#[verifier::external_body]
fn text_of<'a>(element: &ElementRef<'a>) -> (text: String)
    ensures
        text@ == element_text(*element),
{
    element.text().collect()
}

/// The selector of the tables that list results.
pub const TABLES: &'static str = "table.statistics";

/// The selector of the data rows of such a table. Header and spacer rows have
/// neither class.
pub const ROWS: &'static str = "tr.row0,tr.row1";

/// The selector of the cells of a row.
pub const CELLS: &'static str = "td";

/// The selector of a label: the element inside a cell that holds a date or a
/// team name in full.
pub const LABELS: &'static str = "span.hidden-xs";

/// The four compiled selectors by which a page is read.
pub struct Selectors {
    pub tables: Selector,
    pub rows: Selector,
    pub cells: Selector,
    pub labels: Selector,
}

/// The selectors of the results page, if `scraper` accepts all four texts.
pub open spec fn page_selectors() -> Option<Selectors> {
    if css_selector(TABLES@) is Some && css_selector(ROWS@) is Some && css_selector(CELLS@) is Some
        && css_selector(LABELS@) is Some {
        Some(
            Selectors {
                tables: css_selector(TABLES@)->0,
                rows: css_selector(ROWS@)->0,
                cells: css_selector(CELLS@)->0,
                labels: css_selector(LABELS@)->0,
            },
        )
    } else {
        None
    }
}

/// The texts of the given elements, joined in their order.
pub open spec fn joined_text(elements: Seq<ElementRef<'static>>) -> Seq<char>
    decreases elements.len(),
{
    if elements.len() == 0 {
        Seq::empty()
    } else {
        joined_text(elements.drop_last()) + element_text(elements.last())
    }
}

/// What the extraction reads from one cell: its text, and the joined text of
/// the labels inside it, if it has any.
pub open spec fn cell_of(element: ElementRef<'static>, selectors: Selectors) -> CellView {
    let labels = element_matches(element, selectors.labels);
    CellView {
        text: element_text(element),
        label: if labels.len() == 0 {
            None
        } else {
            Some(joined_text(labels))
        },
    }
}

/// The cells of one row, in the order in which they are found.
pub open spec fn row_cells(row: ElementRef<'static>, selectors: Selectors) -> Seq<CellView> {
    element_matches(row, selectors.cells).map_values(
        |cell: ElementRef<'static>| cell_of(cell, selectors),
    )
}

/// The data rows of one table, in the order in which they are found.
pub open spec fn table_rows(table: ElementRef<'static>, selectors: Selectors) -> Seq<
    Seq<CellView>,
> {
    element_matches(table, selectors.rows).map_values(
        |row: ElementRef<'static>| row_cells(row, selectors),
    )
}

/// The data rows of the given tables: those of the first table, then those of
/// the second, and so on.
pub open spec fn rows_of_tables(tables: Seq<ElementRef<'static>>, selectors: Selectors) -> Seq<
    Seq<CellView>,
>
    decreases tables.len(),
{
    if tables.len() == 0 {
        Seq::empty()
    } else {
        rows_of_tables(tables.drop_last(), selectors) + table_rows(tables.last(), selectors)
    }
}

/// The data rows of a page: the rows of all its result tables, table after
/// table in the order in which the tables are found.
pub open spec fn page_rows(text: Seq<char>, selectors: Selectors) -> Seq<Seq<CellView>> {
    rows_of_tables(document_matches(html_document(text), selectors.tables), selectors)
}

/// Where the rows of a table stand among the rows of all the tables: one
/// after another, behind the rows of the tables before it.
pub proof fn lemma_rows_of_tables_position(
    tables: Seq<ElementRef<'static>>,
    selectors: Selectors,
    t: int,
    r: int,
)
    requires
        0 <= t < tables.len(),
        0 <= r < table_rows(tables[t], selectors).len(),
    ensures
        rows_of_tables(tables.take(t), selectors).len() + r < rows_of_tables(
            tables,
            selectors,
        ).len(),
        rows_of_tables(tables, selectors)[rows_of_tables(tables.take(t), selectors).len() + r]
            == table_rows(tables[t], selectors)[r],
        table_rows(tables[t], selectors)[r] == row_cells(
            element_matches(tables[t], selectors.rows)[r],
            selectors,
        ),
    decreases tables.len(),
{
    let earlier = tables.drop_last();
    if t == tables.len() - 1 {
        assert(tables.take(t) =~= earlier);
    } else {
        lemma_rows_of_tables_position(earlier, selectors, t, r);
        assert(earlier.take(t) =~= tables.take(t));
        assert(earlier[t] == tables[t]);
    }
}

/// Order is preserved: where the extraction of a page succeeds, there is one
/// box score for each data row, and the box score of the `r`-th data row of
/// the `t`-th table stands behind those of all the rows of the tables before
/// it and of the rows before it in its table.
pub proof fn lemma_order_preserved(
    scores: Seq<BoxScoreView>,
    html: Seq<char>,
    selectors: Selectors,
    t: int,
    r: int,
)
    requires
        is_outcome_of(Ok(scores), page_rows(html, selectors)),
        0 <= t < document_matches(html_document(html), selectors.tables).len(),
        0 <= r < table_rows(
            document_matches(html_document(html), selectors.tables)[t],
            selectors,
        ).len(),
    ensures
        scores.len() == page_rows(html, selectors).len(),
        rows_of_tables(
            document_matches(html_document(html), selectors.tables).take(t),
            selectors,
        ).len() + r < scores.len(),
        box_score_of(
            table_rows(document_matches(html_document(html), selectors.tables)[t], selectors)[r],
        ) == Ok::<BoxScoreView, ParseError>(
            scores[rows_of_tables(
                document_matches(html_document(html), selectors.tables).take(t),
                selectors,
            ).len() + r],
        ),
{
    let tables = document_matches(html_document(html), selectors.tables);
    lemma_rows_of_tables_position(tables, selectors, t, r);
    let at = rows_of_tables(tables.take(t), selectors).len() + r;
    assert(page_rows(html, selectors)[at] == table_rows(tables[t], selectors)[r]);
}

/// Compiles one selector.
fn compile(text: &str) -> (selector: Option<Selector>)
    ensures
        selector == css_selector(text@),
{
    match Selector::parse(text) {
        Ok(selector) => Some(selector),
        Err(_) => None,
    }
}

/// Compiles the four selectors of the results page.
pub fn compile_selectors() -> (selectors: Option<Selectors>)
    ensures
        selectors == page_selectors(),
{
    let tables = match compile(TABLES) {
        Some(selector) => selector,
        None => { return None; },
    };
    let rows = match compile(ROWS) {
        Some(selector) => selector,
        None => { return None; },
    };
    let cells = match compile(CELLS) {
        Some(selector) => selector,
        None => { return None; },
    };
    let labels = match compile(LABELS) {
        Some(selector) => selector,
        None => { return None; },
    };
    Some(Selectors { tables, rows, cells, labels })
}

/// Reads one cell.
fn read_cell<'a>(element: &ElementRef<'a>, selectors: &Selectors) -> (cell: Cell)
    ensures
        cell@ == cell_of(*element, *selectors),
{
    let text = text_of(element);
    let labels = select_in_element(element, &selectors.labels);
    if labels.len() == 0 {
        return Cell { text, label: None };
    }
    let mut joined = String::new();
    let mut i: usize = 0;
    while i < labels.len()
        invariant
            0 <= i <= labels.len(),
            joined@ == joined_text(labels@.take(i as int)),
        decreases labels.len() - i,
    {
        let part = text_of(&labels[i]);
        assert(labels@.take(i + 1).drop_last() =~= labels@.take(i as int));
        joined.append(part.as_str());
        i = i + 1;
    }
    assert(labels@.take(i as int) =~= labels@);
    Cell { text, label: Some(joined) }
}

/// Reads the cells of one row.
fn read_row<'a>(row: &ElementRef<'a>, selectors: &Selectors) -> (cells: Vec<Cell>)
    ensures
        cells.deep_view() == row_cells(*row, *selectors),
{
    let found = select_in_element(row, &selectors.cells);
    let mut cells: Vec<Cell> = Vec::new();
    let mut i: usize = 0;
    while i < found.len()
        invariant
            0 <= i <= found.len(),
            found@ == element_matches(*row, selectors.cells),
            cells.len() == i,
            forall|j: int| 0 <= j < i ==> (#[trigger] cells[j])@ == cell_of(found[j], *selectors),
        decreases found.len() - i,
    {
        let cell = read_cell(&found[i], selectors);
        cells.push(cell);
        i = i + 1;
    }
    assert(cells.deep_view() =~= row_cells(*row, *selectors));
    cells
}

/// Reads the data rows of one table and appends them to `rows`.
fn read_table<'a>(table: &ElementRef<'a>, selectors: &Selectors, rows: &mut Vec<Vec<Cell>>)
    ensures
        final(rows).deep_view() == old(rows).deep_view() + table_rows(*table, *selectors),
{
    let found = select_in_element(table, &selectors.rows);
    let ghost before = rows.deep_view();
    let mut i: usize = 0;
    while i < found.len()
        invariant
            0 <= i <= found.len(),
            found@ == element_matches(*table, selectors.rows),
            rows.deep_view() == before + table_rows(*table, *selectors).take(i as int),
        decreases found.len() - i,
    {
        let cells = read_row(&found[i], selectors);
        let ghost earlier = rows.deep_view();
        rows.push(cells);
        assert(rows.deep_view() =~= earlier.push(cells.deep_view()));
        assert(rows.deep_view() =~= before + table_rows(*table, *selectors).take(i + 1));
        i = i + 1;
    }
    assert(table_rows(*table, *selectors).take(i as int) =~= table_rows(*table, *selectors));
}

/// Parses a page and reads the data rows of its result tables: each row as
/// its cells, the rows in the order of `page_rows`. The only fault is a
/// selector that the selector parser refuses.
pub fn read_rows(html: &str) -> (outcome: Result<Vec<Vec<Cell>>, ParseError>)
    ensures
        match outcome {
            Ok(rows) => page_selectors() matches Some(selectors) && rows.deep_view() == page_rows(
                html@,
                selectors,
            ),
            Err(fault) => fault == ParseError::InvalidSelector && page_selectors() is None,
        },
{
    let selectors = match compile_selectors() {
        Some(selectors) => selectors,
        None => { return Err(ParseError::InvalidSelector); },
    };
    let document = Html::parse_document(html);
    let tables = select_in_document(&document, &selectors.tables);
    let mut rows: Vec<Vec<Cell>> = Vec::new();
    let mut i: usize = 0;
    assert(rows.deep_view() =~= rows_of_tables(tables@.take(0), selectors));
    while i < tables.len()
        invariant
            0 <= i <= tables.len(),
            rows.deep_view() == rows_of_tables(tables@.take(i as int), selectors),
        decreases tables.len() - i,
    {
        assert(tables@.take(i + 1).drop_last() =~= tables@.take(i as int));
        read_table(&tables[i], &selectors, &mut rows);
        i = i + 1;
    }
    assert(tables@.take(i as int) =~= tables@);
    Ok(rows)
}

/// What the extraction owes for a page: with the page's selectors compiled,
/// the outcome of the page's data rows; without them, the selector fault.
pub open spec fn is_extraction_of(
    outcome: Result<Vec<BoxScore>, ParseError>,
    html: Seq<char>,
) -> bool {
    match page_selectors() {
        Some(selectors) => is_outcome_of(outcome_view(outcome), page_rows(html, selectors)),
        None => outcome == Err::<Vec<BoxScore>, ParseError>(ParseError::InvalidSelector),
    }
}

/// Extracts the box scores of a results page: one for each data row of each
/// result table, in the order of the rows of `page_rows`. The first row with a
/// fault ends the work, and its fault is the outcome.
pub fn parse_box_scores(html: &str) -> (outcome: Result<Vec<BoxScore>, ParseError>)
    ensures
        is_extraction_of(outcome, html@),
{
    match read_rows(html) {
        Ok(rows) => parse_rows(&rows),
        Err(fault) => Err(fault),
    }
}

} // verus!
