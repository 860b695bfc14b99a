//! The catalog as a mathematical value, and what each operation makes of it.
//!
//! The executable catalog is specified against the functions of this module:
//! every operation either yields the catalog that its rule describes here or
//! reports the refusal that its rule names.

use vstd::prelude::*;
use crate::date::{date_error, valid_date};
use crate::error::CatalogErrorView;
use crate::record::{FilmeView, Genero, IndexEntryView};

verus! {

impl FilmeView {
    /// A record may stand in the catalog when it has a name and its release
    /// date exists.
    pub open spec fn valid(self) -> bool {
        &&& self.nome.len() > 0
        &&& valid_date(
            self.ano_lancamento as int,
            self.mes_lancamento as int,
            self.dia_lancamento as int,
        )
    }

    /// The index entry that belongs to a record: its name and its identifier.
    pub open spec fn entry(self) -> IndexEntryView {
        IndexEntryView { nome: self.nome, id: self.id }
    }
}

/// The state of a catalog: its records in storage order, and beside them the
/// index, one entry for each record at the same position.
#[verifier::ext_equal]
pub struct CatalogView {
    pub filmes: Seq<FilmeView>,
    pub index: Seq<IndexEntryView>,
}

impl CatalogView {
    /// What holds of a catalog after every operation: the index has one entry
    /// for each record, which carries that record's name and identifier, every
    /// record is valid, and no name occurs twice.
    pub open spec fn wf(self) -> bool {
        &&& self.index.len() == self.filmes.len()
        &&& forall|i: int| 0 <= i < self.filmes.len() ==> (#[trigger] self.filmes[i]).valid()
        &&& forall|i: int|
            0 <= i < self.index.len() ==> #[trigger] self.index[i] == self.filmes[i].entry()
        &&& forall|i: int, j: int|
            0 <= i < j < self.index.len()
                ==> (#[trigger] self.index[i]).nome != (#[trigger] self.index[j]).nome
    }

    /// The identifiers of the index grow strictly from each entry to the next.
    pub open spec fn ids_ascending(self) -> bool {
        forall|i: int, j: int|
            0 <= i < j < self.index.len()
                ==> (#[trigger] self.index[i]).id < (#[trigger] self.index[j]).id
    }

    /// Whether some record carries the name (compared character by character).
    pub open spec fn has_name(self, nome: Seq<char>) -> bool {
        exists|i: int| 0 <= i < self.index.len() && (#[trigger] self.index[i]).nome == nome
    }

    /// Whether some record is indexed under the identifier.
    pub open spec fn has_id(self, id: u32) -> bool {
        exists|i: int| 0 <= i < self.index.len() && (#[trigger] self.index[i]).id == id
    }

    /// Position `i` is the first of the index that holds the identifier.
    pub open spec fn first_with_id(self, i: int, id: u32) -> bool {
        &&& 0 <= i < self.index.len()
        &&& self.index[i].id == id
        &&& forall|j: int| 0 <= j < i ==> (#[trigger] self.index[j]).id != id
    }

    /// The position that an identifier resolves to: the first entry of the
    /// index that holds it. An empty catalog is reported as such; a missing
    /// identifier is reported together with the index as it stands.
    pub open spec fn resolve(self, id: u32) -> Result<int, CatalogErrorView> {
        if self.index.len() == 0 {
            Err(CatalogErrorView::EmptyCatalog)
        } else if self.has_id(id) {
            Ok(choose|i: int| self.first_with_id(i, id))
        } else {
            Err(CatalogErrorView::NotFound(self.index))
        }
    }

    /// The identifier that the next added record receives: 0 in an empty
    /// catalog, else one more than the last index entry's, and 0 again where
    /// that entry already holds the largest identifier.
    pub open spec fn next_id(self) -> u32 {
        if self.index.len() == 0 || self.index.last().id == u32::MAX {
            0
        } else {
            (self.index.last().id + 1) as u32
        }
    }

    /// Whether the next identifier is still one more than the last: it is
    /// unless the last index entry already holds the largest identifier.
    pub open spec fn has_fresh_id(self) -> bool {
        self.index.len() == 0 || self.index.last().id < u32::MAX
    }

    /// The catalog without records.
    pub open spec fn empty() -> CatalogView {
        CatalogView { filmes: Seq::empty(), index: Seq::empty() }
    }

    /// The catalog that holds the one example record.
    pub open spec fn example() -> CatalogView {
        CatalogView {
            filmes: seq![
                FilmeView {
                    id: 1,
                    nome: "Filme Exemplo"@,
                    bilhetes_vendidos: 1000,
                    ano_lancamento: 2025,
                    mes_lancamento: 1,
                    dia_lancamento: 1,
                    genero: Genero::Acao,
                },
            ],
            index: seq![IndexEntryView { nome: "Filme Exemplo"@, id: 1 }],
        }
    }

    /// The catalog seeded with one record of the caller's choosing, refused
    /// where the name is empty or the date does not exist. The seed record
    /// carries identifier 1, as the example record does.
    pub open spec fn seeded(
        nome: Seq<char>,
        bilhetes_vendidos: u32,
        ano: u32,
        mes: u8,
        dia: u8,
        genero: Genero,
    ) -> Result<CatalogView, CatalogErrorView> {
        if nome.len() == 0 {
            Err(CatalogErrorView::EmptyName)
        } else if let Some(e) = date_error(ano as int, mes as int, dia as int) {
            Err(e)
        } else {
            Ok(
                CatalogView {
                    filmes: seq![
                        FilmeView {
                            id: 1,
                            nome,
                            bilhetes_vendidos,
                            ano_lancamento: ano,
                            mes_lancamento: mes,
                            dia_lancamento: dia,
                            genero,
                        },
                    ],
                    index: seq![IndexEntryView { nome, id: 1 }],
                },
            )
        }
    }

    /// Adding a record: refused for an empty name, then for a date that does
    /// not exist, then for a name already taken; else the record is appended
    /// under the next identifier, with its index entry.
    pub open spec fn add(
        self,
        nome: Seq<char>,
        bilhetes_vendidos: u32,
        ano: u32,
        mes: u8,
        dia: u8,
        genero: Genero,
    ) -> Result<CatalogView, CatalogErrorView> {
        if nome.len() == 0 {
            Err(CatalogErrorView::EmptyName)
        } else if let Some(e) = date_error(ano as int, mes as int, dia as int) {
            Err(e)
        } else if self.has_name(nome) {
            Err(CatalogErrorView::DuplicateName)
        } else {
            Ok(
                CatalogView {
                    filmes: self.filmes.push(
                        FilmeView {
                            id: self.next_id(),
                            nome,
                            bilhetes_vendidos,
                            ano_lancamento: ano,
                            mes_lancamento: mes,
                            dia_lancamento: dia,
                            genero,
                        },
                    ),
                    index: self.index.push(IndexEntryView { nome, id: self.next_id() }),
                },
            )
        }
    }

    /// Whether an update asks for a new date: it does unless year, month and
    /// day are all 0.
    pub open spec fn changes_date(ano: u32, mes: u8, dia: u8) -> bool {
        ano != 0 || mes != 0 || dia != 0
    }

    /// The record that an update makes of `before`: an empty name and 0
    /// tickets leave the field as it was, the date changes as a whole or
    /// not at all, and the genre is always the one given.
    pub open spec fn updated_record(
        before: FilmeView,
        nome: Seq<char>,
        bilhetes_vendidos: u32,
        ano: u32,
        mes: u8,
        dia: u8,
        genero: Genero,
    ) -> FilmeView {
        let new_date = Self::changes_date(ano, mes, dia);
        FilmeView {
            id: before.id,
            nome: if nome.len() > 0 { nome } else { before.nome },
            bilhetes_vendidos: if bilhetes_vendidos != 0 {
                bilhetes_vendidos
            } else {
                before.bilhetes_vendidos
            },
            ano_lancamento: if new_date { ano } else { before.ano_lancamento },
            mes_lancamento: if new_date { mes } else { before.mes_lancamento },
            dia_lancamento: if new_date { dia } else { before.dia_lancamento },
            genero,
        }
    }

    /// Updating the record indexed under `id`: refused where the identifier
    /// does not resolve, then for a new name that some record carries
    /// (the record's own present name included), then for a new date that
    /// does not exist; else the record and its index entry change in place.
    pub open spec fn update(
        self,
        id: u32,
        nome: Seq<char>,
        bilhetes_vendidos: u32,
        ano: u32,
        mes: u8,
        dia: u8,
        genero: Genero,
    ) -> Result<CatalogView, CatalogErrorView> {
        match self.resolve(id) {
            Err(e) => Err(e),
            Ok(at) => {
                if nome.len() > 0 && self.has_name(nome) {
                    Err(CatalogErrorView::DuplicateName)
                } else if Self::changes_date(ano, mes, dia)
                    && date_error(ano as int, mes as int, dia as int) is Some {
                    Err(date_error(ano as int, mes as int, dia as int)->0)
                } else {
                    let after = Self::updated_record(
                        self.filmes[at],
                        nome,
                        bilhetes_vendidos,
                        ano,
                        mes,
                        dia,
                        genero,
                    );
                    Ok(
                        CatalogView {
                            filmes: self.filmes.update(at, after),
                            index: self.index.update(
                                at,
                                IndexEntryView { nome: after.nome, id: self.index[at].id },
                            ),
                        },
                    )
                }
            },
        }
    }

    /// Deleting the record indexed under `id`: refused where the identifier
    /// does not resolve; else the record and its index entry leave, and the
    /// others keep their order.
    pub open spec fn delete(self, id: u32) -> Result<CatalogView, CatalogErrorView> {
        match self.resolve(id) {
            Err(e) => Err(e),
            Ok(at) => Ok(
                CatalogView { filmes: self.filmes.remove(at), index: self.index.remove(at) },
            ),
        }
    }
}

} // verus!
