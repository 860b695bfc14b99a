//! The ways in which a catalog operation can be refused.

use vstd::prelude::*;
use vstd::string::*;
use crate::record::{nomesEIds, IndexEntryView};

verus! {

/// Why an operation on the catalog was refused.
#[derive(Debug, PartialEq, Eq)]
pub enum CatalogError {
    /// A record needs a name and none was given.
    EmptyName,
    /// Another record already carries the name.
    DuplicateName,
    /// The release year lies outside the accepted range.
    YearOutOfRange,
    /// The release month lies outside 1..=12.
    MonthOutOfRange,
    /// The release day lies outside 1..=31.
    DayOutOfRange,
    /// The day does not exist in that month of that year.
    InvalidCalendarDate,
    /// The catalog holds no record at all.
    EmptyCatalog,
    /// No record is indexed under the identifier; the index as it stands
    /// is handed back so that a caller can show what is available.
    NotFound(Vec<nomesEIds>),
}

/// A refusal as a mathematical value.
pub enum CatalogErrorView {
    EmptyName,
    DuplicateName,
    YearOutOfRange,
    MonthOutOfRange,
    DayOutOfRange,
    InvalidCalendarDate,
    EmptyCatalog,
    NotFound(Seq<IndexEntryView>),
}

impl View for CatalogError {
    type V = CatalogErrorView;

    open spec fn view(&self) -> CatalogErrorView {
        match self {
            CatalogError::EmptyName => CatalogErrorView::EmptyName,
            CatalogError::DuplicateName => CatalogErrorView::DuplicateName,
            CatalogError::YearOutOfRange => CatalogErrorView::YearOutOfRange,
            CatalogError::MonthOutOfRange => CatalogErrorView::MonthOutOfRange,
            CatalogError::DayOutOfRange => CatalogErrorView::DayOutOfRange,
            CatalogError::InvalidCalendarDate => CatalogErrorView::InvalidCalendarDate,
            CatalogError::EmptyCatalog => CatalogErrorView::EmptyCatalog,
            CatalogError::NotFound(available) => CatalogErrorView::NotFound(
                available.deep_view(),
            ),
        }
    }
}

/// The text in which the pretty `Debug` format writes a list of index
/// entries.
pub uninterp spec fn debug_listing(entries: Seq<IndexEntryView>) -> Seq<char>;

/// Renders index entries with `format!` and the pretty `Debug` format
/// (`{:#?}`). The text depends on the entries' names and identifiers alone;
/// the contract gives it a name and says nothing else of it.
#[verifier::external_body]
fn format_entries(entries: &Vec<nomesEIds>) -> (text: String)
    ensures
        text@ == debug_listing(entries.deep_view()),
{
    format!("{:#?}", entries)
}

impl CatalogErrorView {
    /// The text shown for a refusal. Each kind has a fixed sentence; a missing
    /// record's sentence is followed by the listing of the index.
    pub open spec fn message(self) -> Seq<char> {
        match self {
            CatalogErrorView::EmptyName => "Por favor, insira um nome para o filme"@,
            CatalogErrorView::DuplicateName => "Esse nome já existe no sistema!"@,
            CatalogErrorView::YearOutOfRange =>
                "Por favor, insira um ano válido (Entre 2000 e 2025)!"@,
            CatalogErrorView::MonthOutOfRange =>
                "Por favor, insira um mês válido (Entre 1 e 12)!"@,
            CatalogErrorView::DayOutOfRange =>
                "Por favor, insira um dia válido (Entre 1 e 31)!"@,
            CatalogErrorView::InvalidCalendarDate => "Data inválida!"@,
            CatalogErrorView::EmptyCatalog => "Não existem filmes no sistema!"@,
            CatalogErrorView::NotFound(available) =>
                "Não existe um filme com esse nome!\nFilmes disponíveis: "@
                    + debug_listing(available),
        }
    }
}

impl CatalogError {
    /// The text shown for this refusal.
    pub fn message(&self) -> (text: String)
        ensures
            text@ == self@.message(),
    {
        match self {
            CatalogError::EmptyName => String::from_str("Por favor, insira um nome para o filme"),
            CatalogError::DuplicateName => String::from_str("Esse nome já existe no sistema!"),
            CatalogError::YearOutOfRange => String::from_str(
                "Por favor, insira um ano válido (Entre 2000 e 2025)!",
            ),
            CatalogError::MonthOutOfRange => String::from_str(
                "Por favor, insira um mês válido (Entre 1 e 12)!",
            ),
            CatalogError::DayOutOfRange => String::from_str(
                "Por favor, insira um dia válido (Entre 1 e 31)!",
            ),
            CatalogError::InvalidCalendarDate => String::from_str("Data inválida!"),
            CatalogError::EmptyCatalog => String::from_str("Não existem filmes no sistema!"),
            CatalogError::NotFound(available) => {
                let listing = format_entries(available);
                let mut text = String::from_str(
                    "Não existe um filme com esse nome!\nFilmes disponíveis: ",
                );
                text.append(listing.as_str());
                text
            },
        }
    }
}

} // verus!
