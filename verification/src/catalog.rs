//! The catalog itself: the records, their index, and the operations on them.

use vstd::prelude::*;
use vstd::string::*;
use crate::date::{date_error, valid_date, validate_date};
use crate::error::{CatalogError, CatalogErrorView};
use crate::laws::{
    lemma_add_preserves_id_order, lemma_add_preserves_wf, lemma_delete_preserves_id_order,
    lemma_delete_preserves_wf, lemma_initial_catalogs, lemma_resolve_is_first, lemma_seeded_wf,
    lemma_update_preserves_id_order, lemma_update_preserves_wf,
};
use crate::model::CatalogView;
use crate::record::{nomesEIds, Filme, Genero};

verus! {

/// A catalog of movies. The records stand in the order in which they were
/// added; beside them stands the index, which holds for each record its name
/// and the identifier by which updates and removals find it.
pub struct Flipper {
    lista_filmes: Vec<Filme>,
    lista_nomes: Vec<nomesEIds>,
}

impl View for Flipper {
    type V = CatalogView;

    closed spec fn view(&self) -> CatalogView {
        CatalogView {
            filmes: self.lista_filmes.deep_view(),
            index: self.lista_nomes.deep_view(),
        }
    }
}

impl Flipper {
    /// The catalog that holds the one example record.
    pub fn new_with_example() -> (catalog: Self)
        ensures
            catalog@ == CatalogView::example(),
            catalog@.wf(),
            catalog@.ids_ascending(),
    {
        let filme_exemplo = Filme {
            id: 1,
            nome: String::from_str("Filme Exemplo"),
            bilhetes_vendidos: 1000,
            ano_lancamento: 2025,
            mes_lancamento: 1,
            dia_lancamento: 1,
            genero: Genero::Acao,
        };
        let nome_e_id = nomesEIds { nome: filme_exemplo.nome.clone(), id: 1 };
        let mut lista_nomes = Vec::new();
        lista_nomes.push(nome_e_id);
        let mut lista_filmes = Vec::new();
        lista_filmes.push(filme_exemplo);
        proof {
            lemma_initial_catalogs();
        }
        Flipper { lista_filmes, lista_nomes }
    }

    /// A catalog seeded with one record of the caller's choosing, refused
    /// where the name is empty or the date does not exist. The seed record
    /// carries identifier 1, as the example record does.
    pub fn new_with_custom(
        nome: String,
        bilhetes_vendidos: u32,
        ano_lancamento: u32,
        mes_lancamento: u8,
        dia_lancamento: u8,
        genero: Genero,
    ) -> (r: Result<Self, CatalogError>)
        ensures
            match CatalogView::seeded(
                nome@,
                bilhetes_vendidos,
                ano_lancamento,
                mes_lancamento,
                dia_lancamento,
                genero,
            ) {
                Ok(seeded) => r is Ok && r->Ok_0@ == seeded,
                Err(e) => r is Err && r->Err_0@ == e,
            },
            r matches Ok(catalog) ==> {
                &&& catalog@.wf()
                &&& catalog@.ids_ascending()
                &&& catalog@.resolve(catalog@.filmes[0].id) == Ok::<int, CatalogErrorView>(0)
                &&& catalog@.has_name(nome@)
            },
    {
        if nome.as_str().is_empty() {
            return Err(CatalogError::EmptyName);
        }
        if let Err(e) = validate_date(ano_lancamento, mes_lancamento, dia_lancamento) {
            return Err(e);
        }
        let nome_e_id = nomesEIds { nome: nome.clone(), id: 1 };
        let filme_exemplo = Filme {
            id: 1,
            nome,
            bilhetes_vendidos,
            ano_lancamento,
            mes_lancamento,
            dia_lancamento,
            genero,
        };
        let mut lista_nomes = Vec::new();
        lista_nomes.push(nome_e_id);
        let mut lista_filmes = Vec::new();
        lista_filmes.push(filme_exemplo);
        proof {
            lemma_seeded_wf(
                nome@,
                bilhetes_vendidos,
                ano_lancamento,
                mes_lancamento,
                dia_lancamento,
                genero,
            );
        }
        Ok(Flipper { lista_filmes, lista_nomes })
    }

    /// The empty catalog.
    pub fn default() -> (catalog: Self)
        ensures
            catalog@ == CatalogView::empty(),
            catalog@.wf(),
            catalog@.ids_ascending(),
    {
        proof {
            lemma_initial_catalogs();
        }
        Flipper { lista_filmes: Vec::new(), lista_nomes: Vec::new() }
    }

    /// Rebuilds a catalog from records and an index that were stored away,
    /// or returns `None` where the two do not make a well-formed catalog:
    /// where their lengths differ, an index entry does not carry its record's
    /// name and identifier, a record has no name or an impossible date, or a
    /// name occurs twice.
    pub fn from_parts(lista_filmes: Vec<Filme>, lista_nomes: Vec<nomesEIds>) -> (r: Option<Self>)
        ensures
            ({
                let parts = CatalogView {
                    filmes: lista_filmes.deep_view(),
                    index: lista_nomes.deep_view(),
                };
                match r {
                    Some(catalog) => catalog@ == parts && parts.wf(),
                    None => !parts.wf(),
                }
            }),
    {
        let ghost parts = CatalogView {
            filmes: lista_filmes.deep_view(),
            index: lista_nomes.deep_view(),
        };
        if lista_filmes.len() != lista_nomes.len() {
            return None;
        }
        let mut i: usize = 0;
        while i < lista_filmes.len()
            invariant
                i <= lista_filmes.len(),
                lista_filmes.len() == lista_nomes.len(),
                parts.filmes == lista_filmes.deep_view(),
                parts.index == lista_nomes.deep_view(),
                forall|k: int| 0 <= k < i ==> (#[trigger] parts.filmes[k]).valid(),
                forall|k: int|
                    0 <= k < i ==> #[trigger] parts.index[k] == parts.filmes[k].entry(),
                forall|k: int, l: int|
                    0 <= k < l < i
                        ==> (#[trigger] parts.index[k]).nome != (#[trigger] parts.index[l]).nome,
            decreases lista_filmes.len() - i,
        {
            let filme = &lista_filmes[i];
            assert(parts.index[i as int] == lista_nomes[i as int]@);
            if filme.nome.as_str().is_empty() {
                return None;
            }
            if let Err(_) = validate_date(
                filme.ano_lancamento,
                filme.mes_lancamento,
                filme.dia_lancamento,
            ) {
                return None;
            }
            if lista_nomes[i].nome != filme.nome || lista_nomes[i].id != filme.id {
                return None;
            }
            let mut j: usize = 0;
            while j < i
                invariant
                    j <= i < lista_nomes.len(),
                    parts.index == lista_nomes.deep_view(),
                    forall|k: int|
                        0 <= k < j ==> (#[trigger] parts.index[k]).nome != parts.index[i as int].nome,
                decreases i - j,
            {
                assert(parts.index[j as int] == lista_nomes[j as int]@);
                assert(parts.index[i as int] == lista_nomes[i as int]@);
                if lista_nomes[j].nome == lista_nomes[i].nome {
                    return None;
                }
                j += 1;
            }
            i += 1;
        }
        Some(Flipper { lista_filmes, lista_nomes })
    }

    /// Hands out the records and the index, each in storage order.
    pub fn into_parts(self) -> (parts: (Vec<Filme>, Vec<nomesEIds>))
        ensures
            parts.0.deep_view() == self@.filmes,
            parts.1.deep_view() == self@.index,
    {
        (self.lista_filmes, self.lista_nomes)
    }

    /// Adds a record under the next identifier. The add is refused, and the
    /// catalog left as it was, where the name is empty, the date does not
    /// exist, or the name is already taken.
    pub fn add_filme(
        &mut self,
        nome: String,
        bilhetes_vendidos: u32,
        ano_lancamento: u32,
        mes_lancamento: u8,
        dia_lancamento: u8,
        genero: Genero,
    ) -> (r: Result<(), CatalogError>)
        requires
            old(self)@.wf(),
        ensures
            final(self)@.wf(),
            match old(self)@.add(
                nome@,
                bilhetes_vendidos,
                ano_lancamento,
                mes_lancamento,
                dia_lancamento,
                genero,
            ) {
                Ok(after) => r is Ok && final(self)@ == after,
                Err(e) => r is Err && r->Err_0@ == e && final(self)@ == old(self)@,
            },
            old(self)@.ids_ascending() && old(self)@.has_fresh_id()
                ==> final(self)@.ids_ascending(),
    {
        if nome.as_str().is_empty() {
            return Err(CatalogError::EmptyName);
        }
        if let Err(e) = self.checa_data(ano_lancamento, mes_lancamento, dia_lancamento) {
            return Err(e);
        }
        if self.checa_nome_unico(nome.as_str()) {
            return Err(CatalogError::DuplicateName);
        }
        let id = self.calculaId();
        let novo_filme = Filme {
            id,
            nome,
            bilhetes_vendidos,
            ano_lancamento,
            mes_lancamento,
            dia_lancamento,
            genero,
        };
        self.lista_nomes.push(nomesEIds { nome: novo_filme.nome.clone(), id });
        self.lista_filmes.push(novo_filme);
        proof {
            let after = old(self)@.add(
                nome@,
                bilhetes_vendidos,
                ano_lancamento,
                mes_lancamento,
                dia_lancamento,
                genero,
            )->Ok_0;
            assert(self@.filmes =~= after.filmes);
            assert(self@.index =~= after.index);
            lemma_add_preserves_wf(
                old(self)@,
                nome@,
                bilhetes_vendidos,
                ano_lancamento,
                mes_lancamento,
                dia_lancamento,
                genero,
            );
            if old(self)@.ids_ascending() && old(self)@.has_fresh_id() {
                lemma_add_preserves_id_order(
                    old(self)@,
                    nome@,
                    bilhetes_vendidos,
                    ano_lancamento,
                    mes_lancamento,
                    dia_lancamento,
                    genero,
                );
            }
        }
        Ok(())
    }

    /// A copy of every record, in storage order.
    pub fn get_lista_filmes(&self) -> (filmes: Vec<Filme>)
        ensures
            filmes.deep_view() == self@.filmes,
    {
        self.lista_filmes.clone()
    }

    /// Removes the record indexed under `id`; the others keep their order.
    /// Where the identifier does not resolve, the catalog is left as it was.
    pub fn delete_filme(&mut self, id: u32) -> (r: Result<(), CatalogError>)
        requires
            old(self)@.wf(),
        ensures
            final(self)@.wf(),
            match old(self)@.delete(id) {
                Ok(after) => r is Ok && final(self)@ == after,
                Err(e) => r is Err && r->Err_0@ == e && final(self)@ == old(self)@,
            },
            old(self)@.ids_ascending() ==> final(self)@.ids_ascending(),
    {
        let ind = match self.get_index_filme(id) {
            Ok(num) => num,
            Err(e) => {
                return Err(e);
            },
        };
        self.lista_nomes.remove(ind);
        self.lista_filmes.remove(ind);
        proof {
            let after = old(self)@.delete(id)->Ok_0;
            assert(self@.filmes =~= after.filmes);
            assert(self@.index =~= after.index);
            lemma_delete_preserves_wf(old(self)@, id);
            if old(self)@.ids_ascending() {
                lemma_delete_preserves_id_order(old(self)@, id);
            }
        }
        Ok(())
    }

    /// Updates the record indexed under `id_filme_a_atualizar`. An empty name
    /// and 0 tickets leave the field as it was; the date is left as it was
    /// where year, month and day are all 0, and else replaced as a whole; the
    /// genre is always replaced. Where the update is refused, no field of any
    /// record has changed.
    pub fn update_filme(
        &mut self,
        id_filme_a_atualizar: u32,
        novo_nome_filme: String,
        bilhetes_vendidos: u32,
        ano_lancamento: u32,
        mes_lancamento: u8,
        dia_lancamento: u8,
        genero: Genero,
    ) -> (r: Result<(), CatalogError>)
        requires
            old(self)@.wf(),
        ensures
            final(self)@.wf(),
            match old(self)@.update(
                id_filme_a_atualizar,
                novo_nome_filme@,
                bilhetes_vendidos,
                ano_lancamento,
                mes_lancamento,
                dia_lancamento,
                genero,
            ) {
                Ok(after) => r is Ok && final(self)@ == after,
                Err(e) => r is Err && r->Err_0@ == e && final(self)@ == old(self)@,
            },
            old(self)@.ids_ascending() ==> final(self)@.ids_ascending(),
    {
        let ind = match self.get_index_filme(id_filme_a_atualizar) {
            Ok(num) => num,
            Err(e) => {
                return Err(e);
            },
        };
        let new_name = !novo_nome_filme.as_str().is_empty();
        if new_name && self.checa_nome_unico(novo_nome_filme.as_str()) {
            return Err(CatalogError::DuplicateName);
        }
        let new_date = ano_lancamento != 0 || mes_lancamento != 0 || dia_lancamento != 0;
        if new_date {
            if let Err(e) = self.checa_data(ano_lancamento, mes_lancamento, dia_lancamento) {
                return Err(e);
            }
        }
        if new_name {
            self.lista_nomes[ind].nome = novo_nome_filme.clone();
            self.lista_filmes[ind].nome = novo_nome_filme;
        }
        if bilhetes_vendidos != 0 {
            self.lista_filmes[ind].bilhetes_vendidos = bilhetes_vendidos;
        }
        if new_date {
            self.lista_filmes[ind].ano_lancamento = ano_lancamento;
            self.lista_filmes[ind].mes_lancamento = mes_lancamento;
            self.lista_filmes[ind].dia_lancamento = dia_lancamento;
        }
        self.lista_filmes[ind].genero = genero;
        proof {
            let after = old(self)@.update(
                id_filme_a_atualizar,
                novo_nome_filme@,
                bilhetes_vendidos,
                ano_lancamento,
                mes_lancamento,
                dia_lancamento,
                genero,
            )->Ok_0;
            lemma_resolve_is_first(old(self)@, id_filme_a_atualizar, ind as int);
            assert(self@.filmes =~= after.filmes);
            assert(self@.index =~= after.index);
            lemma_update_preserves_wf(
                old(self)@,
                id_filme_a_atualizar,
                novo_nome_filme@,
                bilhetes_vendidos,
                ano_lancamento,
                mes_lancamento,
                dia_lancamento,
                genero,
            );
            if old(self)@.ids_ascending() {
                lemma_update_preserves_id_order(
                    old(self)@,
                    id_filme_a_atualizar,
                    novo_nome_filme@,
                    bilhetes_vendidos,
                    ano_lancamento,
                    mes_lancamento,
                    dia_lancamento,
                    genero,
                );
            }
        }
        Ok(())
    }

    /// Resolves an identifier to the position of its record: the first
    /// position of the index that holds it. An empty catalog is reported as
    /// such, and an identifier that no entry holds together with a copy of
    /// the index.
    pub fn get_index_filme(&self, id: u32) -> (r: Result<usize, CatalogError>)
        ensures
            match self@.resolve(id) {
                Ok(at) => r is Ok && r->Ok_0 == at,
                Err(e) => r is Err && r->Err_0@ == e,
            },
            r matches Ok(at) ==> self@.first_with_id(at as int, id),
    {
        if self.lista_nomes.len() == 0 {
            return Err(CatalogError::EmptyCatalog);
        }
        let mut index: usize = 0;
        while index < self.lista_nomes.len()
            invariant
                index <= self.lista_nomes.len(),
                forall|j: int| 0 <= j < index ==> (#[trigger] self@.index[j]).id != id,
            decreases self.lista_nomes.len() - index,
        {
            if self.lista_nomes[index].id == id {
                assert(self@.first_with_id(index as int, id));
                return Ok(index);
            }
            index += 1;
        }
        Err(CatalogError::NotFound(self.lista_nomes.clone()))
    }

    /// Whether some record of the catalog carries the name.
    pub fn checa_nome_unico(&self, nome_f: &str) -> (taken: bool)
        ensures
            taken == self@.has_name(nome_f@),
    {
        let wanted = nome_f.to_owned();
        let mut i: usize = 0;
        while i < self.lista_nomes.len()
            invariant
                i <= self.lista_nomes.len(),
                wanted@ == nome_f@,
                forall|j: int| 0 <= j < i ==> (#[trigger] self@.index[j]).nome != nome_f@,
            decreases self.lista_nomes.len() - i,
        {
            if self.lista_nomes[i].nome == wanted {
                assert(self@.index[i as int].nome == nome_f@);
                return true;
            }
            i += 1;
        }
        false
    }

    /// Checks a release date and reports the first rule that it breaks.
    pub fn checa_data(&self, ano: u32, mes: u8, dia: u8) -> (r: Result<(), CatalogError>)
        ensures
            r is Ok <==> valid_date(ano as int, mes as int, dia as int),
            match r {
                Ok(()) => date_error(ano as int, mes as int, dia as int) is None,
                Err(e) => date_error(ano as int, mes as int, dia as int) == Some(e@),
            },
    {
        validate_date(ano, mes, dia)
    }

    /// The identifier that the next added record receives: 0 in an empty
    /// catalog, else one more than the last index entry's, and 0 again where
    /// that entry already holds the largest identifier.
    #[allow(non_snake_case)]
    pub fn calculaId(&self) -> (id: u32)
        requires
            self@.wf(),
        ensures
            id == self@.next_id(),
    {
        if self.lista_filmes.is_empty() {
            return 0;
        }
        let last_index = self.lista_filmes.len() - 1;
        match self.lista_nomes[last_index].id.checked_add(1) {
            Some(new_id) => new_id,
            None => 0,
        }
    }
}

} // verus!
