//! The records that the catalog holds, and what they stand for in contracts.

use vstd::prelude::*;

verus! {

/// The genre of a movie.
#[derive(Clone, Copy, Debug, PartialEq, Eq, Structural)]
pub enum Genero {
    Acao,
    Animacao,
    Comedia,
    Drama,
    Gospel,
    Suspense,
    Outros,
}

/// One movie of the catalog.
#[derive(Debug, PartialEq, Eq)]
pub struct Filme {
    pub id: u32,
    pub nome: String,
    pub bilhetes_vendidos: u32,
    pub ano_lancamento: u32,
    pub mes_lancamento: u8,
    pub dia_lancamento: u8,
    pub genero: Genero,
}

/// A movie as a mathematical value: the name is a sequence of characters.
pub struct FilmeView {
    pub id: u32,
    pub nome: Seq<char>,
    pub bilhetes_vendidos: u32,
    pub ano_lancamento: u32,
    pub mes_lancamento: u8,
    pub dia_lancamento: u8,
    pub genero: Genero,
}

impl View for Filme {
    type V = FilmeView;

    open spec fn view(&self) -> FilmeView {
        FilmeView {
            id: self.id,
            nome: self.nome@,
            bilhetes_vendidos: self.bilhetes_vendidos,
            ano_lancamento: self.ano_lancamento,
            mes_lancamento: self.mes_lancamento,
            dia_lancamento: self.dia_lancamento,
            genero: self.genero,
        }
    }
}

impl DeepView for Filme {
    type V = FilmeView;

    open spec fn deep_view(&self) -> FilmeView {
        self@
    }
}

impl Clone for Filme {
    fn clone(&self) -> (copy: Self)
        ensures
            copy == *self,
    {
        Filme {
            id: self.id,
            nome: self.nome.clone(),
            bilhetes_vendidos: self.bilhetes_vendidos,
            ano_lancamento: self.ano_lancamento,
            mes_lancamento: self.mes_lancamento,
            dia_lancamento: self.dia_lancamento,
            genero: self.genero,
        }
    }
}

/// One entry of the catalog's index: a movie's name with the identifier
/// under which the catalog finds it.
#[allow(non_camel_case_types)]
#[derive(Debug, PartialEq, Eq)]
pub struct nomesEIds {
    pub nome: String,
    pub id: u32,
}

/// An index entry as a mathematical value.
pub struct IndexEntryView {
    pub nome: Seq<char>,
    pub id: u32,
}

impl View for nomesEIds {
    type V = IndexEntryView;

    open spec fn view(&self) -> IndexEntryView {
        IndexEntryView { nome: self.nome@, id: self.id }
    }
}

impl DeepView for nomesEIds {
    type V = IndexEntryView;

    open spec fn deep_view(&self) -> IndexEntryView {
        self@
    }
}

impl Clone for nomesEIds {
    fn clone(&self) -> (copy: Self)
        ensures
            copy == *self,
    {
        nomesEIds { nome: self.nome.clone(), id: self.id }
    }
}

} // verus!
