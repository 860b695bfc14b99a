//! What follows from the rules of the operations, stated once and proved.

use vstd::prelude::*;
use crate::date::valid_date;
use crate::error::CatalogErrorView;
use crate::model::CatalogView;
use crate::record::{FilmeView, Genero};

verus! {

/// Among the positions that hold an identifier there is a first one.
proof fn lemma_first_exists(c: CatalogView, id: u32, k: int)
    requires
        0 <= k < c.index.len(),
        c.index[k].id == id,
    ensures
        exists|i: int| c.first_with_id(i, id),
    decreases k,
{
    if exists|j: int| 0 <= j < k && (#[trigger] c.index[j]).id == id {
        let j = choose|j: int| 0 <= j < k && (#[trigger] c.index[j]).id == id;
        lemma_first_exists(c, id, j);
    } else {
        assert(c.first_with_id(k, id));
    }
}

/// An identifier resolves to a position exactly when that position is the
/// first of the index that holds it.
pub proof fn lemma_resolve_is_first(c: CatalogView, id: u32, at: int)
    ensures
        c.resolve(id) == Ok::<int, CatalogErrorView>(at) <==> c.first_with_id(at, id),
{
    if c.has_id(id) {
        let k = choose|k: int| 0 <= k < c.index.len() && (#[trigger] c.index[k]).id == id;
        lemma_first_exists(c, id, k);
        let chosen = choose|i: int| c.first_with_id(i, id);
        if c.first_with_id(at, id) {
            assert(chosen == at);
        }
    }
}

/// The empty catalog and the example catalog are well formed, and their
/// identifiers are in order.
pub proof fn lemma_initial_catalogs()
    ensures
        CatalogView::empty().wf(),
        CatalogView::empty().ids_ascending(),
        CatalogView::example().wf(),
        CatalogView::example().ids_ascending(),
{
    reveal_strlit("Filme Exemplo");
}

/// A catalog seeded with a record of the caller's choosing is well formed:
/// its record is found under its own identifier, at the first position, and
/// its name is taken.
pub proof fn lemma_seeded_wf(
    nome: Seq<char>,
    bilhetes_vendidos: u32,
    ano: u32,
    mes: u8,
    dia: u8,
    genero: Genero,
)
    requires
        CatalogView::seeded(nome, bilhetes_vendidos, ano, mes, dia, genero) is Ok,
    ensures
        ({
            let seeded = CatalogView::seeded(nome, bilhetes_vendidos, ano, mes, dia, genero)->Ok_0;
            &&& seeded.wf()
            &&& seeded.ids_ascending()
            &&& seeded.resolve(seeded.filmes[0].id) == Ok::<int, CatalogErrorView>(0)
            &&& seeded.has_name(nome)
        }),
{
    let seeded = CatalogView::seeded(nome, bilhetes_vendidos, ano, mes, dia, genero)->Ok_0;
    assert(seeded.index[0].nome == nome);
    lemma_resolve_is_first(seeded, seeded.filmes[0].id, 0);
}

/// Adding a record keeps the catalog well formed.
pub proof fn lemma_add_preserves_wf(
    c: CatalogView,
    nome: Seq<char>,
    bilhetes_vendidos: u32,
    ano: u32,
    mes: u8,
    dia: u8,
    genero: Genero,
)
    requires
        c.wf(),
        c.add(nome, bilhetes_vendidos, ano, mes, dia, genero) is Ok,
    ensures
        c.add(nome, bilhetes_vendidos, ano, mes, dia, genero)->Ok_0.wf(),
{
}

/// A successful add leaves the catalog with exactly one more record: the
/// earlier records stand as they stood, and the last one holds the fields
/// that were given, under the identifier that was next.
pub proof fn lemma_add_appends_one(
    c: CatalogView,
    nome: Seq<char>,
    bilhetes_vendidos: u32,
    ano: u32,
    mes: u8,
    dia: u8,
    genero: Genero,
)
    requires
        c.add(nome, bilhetes_vendidos, ano, mes, dia, genero) is Ok,
    ensures
        ({
            let after = c.add(nome, bilhetes_vendidos, ano, mes, dia, genero)->Ok_0;
            &&& after.filmes.len() == c.filmes.len() + 1
            &&& after.filmes.drop_last() == c.filmes
            &&& after.filmes.last() == (FilmeView {
                id: c.next_id(),
                nome,
                bilhetes_vendidos,
                ano_lancamento: ano,
                mes_lancamento: mes,
                dia_lancamento: dia,
                genero,
            })
            &&& after.index.len() == c.index.len() + 1
            &&& after.index.drop_last() == c.index
        }),
{
}

/// Once a record has been added, its name is taken: every further add under
/// that name is refused, whatever its other fields, and as a duplicate name
/// where its date exists.
pub proof fn lemma_second_add_rejected(
    c: CatalogView,
    nome: Seq<char>,
    bilhetes_vendidos: u32,
    ano: u32,
    mes: u8,
    dia: u8,
    genero: Genero,
    bilhetes_vendidos2: u32,
    ano2: u32,
    mes2: u8,
    dia2: u8,
    genero2: Genero,
)
    requires
        c.add(nome, bilhetes_vendidos, ano, mes, dia, genero) is Ok,
    ensures
        ({
            let after = c.add(nome, bilhetes_vendidos, ano, mes, dia, genero)->Ok_0;
            let again = after.add(nome, bilhetes_vendidos2, ano2, mes2, dia2, genero2);
            &&& after.has_name(nome)
            &&& again is Err
            &&& valid_date(ano2 as int, mes2 as int, dia2 as int)
                ==> again == Err::<CatalogView, CatalogErrorView>(CatalogErrorView::DuplicateName)
        }),
{
}

/// In a catalog without records no identifier resolves: an update and a
/// delete are both refused because the catalog is empty.
pub proof fn lemma_empty_catalog_refuses(
    c: CatalogView,
    id: u32,
    nome: Seq<char>,
    bilhetes_vendidos: u32,
    ano: u32,
    mes: u8,
    dia: u8,
    genero: Genero,
)
    requires
        c.index.len() == 0,
    ensures
        c.delete(id) == Err::<CatalogView, CatalogErrorView>(CatalogErrorView::EmptyCatalog),
        c.update(id, nome, bilhetes_vendidos, ano, mes, dia, genero)
            == Err::<CatalogView, CatalogErrorView>(CatalogErrorView::EmptyCatalog),
{
}

/// Updating a record keeps the catalog well formed.
pub proof fn lemma_update_preserves_wf(
    c: CatalogView,
    id: u32,
    nome: Seq<char>,
    bilhetes_vendidos: u32,
    ano: u32,
    mes: u8,
    dia: u8,
    genero: Genero,
)
    requires
        c.wf(),
        c.update(id, nome, bilhetes_vendidos, ano, mes, dia, genero) is Ok,
    ensures
        c.update(id, nome, bilhetes_vendidos, ano, mes, dia, genero)->Ok_0.wf(),
{
    lemma_resolve_is_first(c, id, c.resolve(id)->Ok_0);
}

/// An update that names no new name, no tickets and no date changes the
/// genre of its record and nothing else: the record keeps its identifier,
/// name, tickets and date, the genre is the one given (also where it is the
/// one that the record had), and every other record and the index stand as
/// they stood.
pub proof fn lemma_update_genre_only(c: CatalogView, id: u32, genero: Genero)
    requires
        c.wf(),
        c.resolve(id) is Ok,
    ensures
        ({
            let at = c.resolve(id)->Ok_0;
            let outcome = c.update(id, Seq::empty(), 0, 0, 0, 0, genero);
            &&& outcome is Ok
            &&& outcome->Ok_0.filmes == c.filmes.update(
                at,
                FilmeView {
                    id: c.filmes[at].id,
                    nome: c.filmes[at].nome,
                    bilhetes_vendidos: c.filmes[at].bilhetes_vendidos,
                    ano_lancamento: c.filmes[at].ano_lancamento,
                    mes_lancamento: c.filmes[at].mes_lancamento,
                    dia_lancamento: c.filmes[at].dia_lancamento,
                    genero,
                },
            )
            &&& outcome->Ok_0.index == c.index
        }),
{
    lemma_resolve_is_first(c, id, c.resolve(id)->Ok_0);
}

/// Deleting a record keeps the catalog well formed.
pub proof fn lemma_delete_preserves_wf(c: CatalogView, id: u32)
    requires
        c.wf(),
        c.delete(id) is Ok,
    ensures
        c.delete(id)->Ok_0.wf(),
{
    lemma_resolve_is_first(c, id, c.resolve(id)->Ok_0);
}

/// A successful delete removes exactly the record that the identifier
/// resolves to: one record fewer, the identifier's first entry gone, and the
/// records before and after it in their old order.
pub proof fn lemma_delete_removes_one(c: CatalogView, id: u32)
    requires
        c.wf(),
        c.delete(id) is Ok,
    ensures
        ({
            let at = c.resolve(id)->Ok_0;
            let after = c.delete(id)->Ok_0;
            &&& c.first_with_id(at, id)
            &&& after.filmes.len() == c.filmes.len() - 1
            &&& forall|i: int| 0 <= i < at ==> #[trigger] after.filmes[i] == c.filmes[i]
            &&& forall|i: int|
                at <= i < after.filmes.len() ==> #[trigger] after.filmes[i] == c.filmes[i + 1]
        }),
{
    lemma_resolve_is_first(c, id, c.resolve(id)->Ok_0);
}

/// Identifiers that grow from each entry to the next are pairwise different,
/// so the identifier of each entry resolves to that entry's position.
pub proof fn lemma_ascending_ids_are_distinct(c: CatalogView)
    requires
        c.ids_ascending(),
    ensures
        forall|i: int, j: int|
            0 <= i < c.index.len() && 0 <= j < c.index.len() && i != j
                ==> (#[trigger] c.index[i]).id != (#[trigger] c.index[j]).id,
        forall|i: int|
            0 <= i < c.index.len()
                ==> c.resolve((#[trigger] c.index[i]).id) == Ok::<int, CatalogErrorView>(i),
{
    assert forall|i: int| 0 <= i < c.index.len() implies c.resolve((#[trigger] c.index[i]).id)
        == Ok::<int, CatalogErrorView>(i) by {
        lemma_resolve_is_first(c, c.index[i].id, i);
    }
}

/// Where the identifiers are in order and the next one is fresh, the record
/// just added is found under the identifier that it received, at the last
/// position.
pub proof fn lemma_added_record_resolves(
    c: CatalogView,
    nome: Seq<char>,
    bilhetes_vendidos: u32,
    ano: u32,
    mes: u8,
    dia: u8,
    genero: Genero,
)
    requires
        c.wf(),
        c.ids_ascending(),
        c.has_fresh_id(),
        c.add(nome, bilhetes_vendidos, ano, mes, dia, genero) is Ok,
    ensures
        c.add(nome, bilhetes_vendidos, ano, mes, dia, genero)->Ok_0.resolve(c.next_id())
            == Ok::<int, CatalogErrorView>(c.index.len() as int),
{
    let after = c.add(nome, bilhetes_vendidos, ano, mes, dia, genero)->Ok_0;
    assert forall|j: int| 0 <= j < c.index.len() implies (#[trigger] after.index[j]).id
        != c.next_id() by {
        assert(c.index[j].id <= c.index[c.index.len() - 1].id);
    }
    lemma_resolve_is_first(after, c.next_id(), c.index.len() as int);
}

/// Where the identifiers are in order and the next one is fresh, it is larger
/// than the identifier of every record, so no record carries it yet.
pub proof fn lemma_next_id_is_fresh(c: CatalogView)
    requires
        c.wf(),
        c.ids_ascending(),
        c.has_fresh_id(),
    ensures
        forall|i: int| 0 <= i < c.filmes.len() ==> (#[trigger] c.filmes[i]).id < c.next_id(),
        !c.has_id(c.next_id()),
{
    assert forall|i: int| 0 <= i < c.filmes.len() implies (#[trigger] c.filmes[i]).id
        < c.next_id() by {
        assert(c.index[i] == c.filmes[i].entry());
        assert(c.index[i].id <= c.index[c.index.len() - 1].id);
    }
    assert forall|i: int| 0 <= i < c.index.len() implies (#[trigger] c.index[i]).id
        != c.next_id() by {
        assert(c.index[i] == c.filmes[i].entry());
    }
}

/// Where the identifiers are in order and the next one is fresh, deleting the
/// record just added, by the identifier that it received, gives back the
/// catalog as it was before the add.
pub proof fn lemma_delete_undoes_add(
    c: CatalogView,
    nome: Seq<char>,
    bilhetes_vendidos: u32,
    ano: u32,
    mes: u8,
    dia: u8,
    genero: Genero,
)
    requires
        c.wf(),
        c.ids_ascending(),
        c.has_fresh_id(),
        c.add(nome, bilhetes_vendidos, ano, mes, dia, genero) is Ok,
    ensures
        c.add(nome, bilhetes_vendidos, ano, mes, dia, genero)->Ok_0.delete(c.next_id())
            == Ok::<CatalogView, CatalogErrorView>(c),
{
    let after = c.add(nome, bilhetes_vendidos, ano, mes, dia, genero)->Ok_0;
    lemma_added_record_resolves(c, nome, bilhetes_vendidos, ano, mes, dia, genero);
    let back = after.delete(c.next_id())->Ok_0;
    assert(back.filmes =~= c.filmes);
    assert(back.index =~= c.index);
}

/// Where the identifiers are in order, a deleted record's identifier is held
/// by no entry afterwards.
pub proof fn lemma_deleted_id_is_gone(c: CatalogView, id: u32)
    requires
        c.wf(),
        c.ids_ascending(),
        c.delete(id) is Ok,
    ensures
        !c.delete(id)->Ok_0.has_id(id),
{
    let at = c.resolve(id)->Ok_0;
    let after = c.delete(id)->Ok_0;
    lemma_resolve_is_first(c, id, at);
    assert forall|i: int| 0 <= i < after.index.len() implies (#[trigger] after.index[i]).id
        != id by {
        if i < at {
            assert(c.index[i].id < c.index[at].id);
        } else {
            assert(c.index[at].id < c.index[i + 1].id);
        }
    }
}

/// Adding a record keeps the identifiers in order, unless the last entry
/// already holds the largest identifier: then the new record receives 0.
pub proof fn lemma_add_preserves_id_order(
    c: CatalogView,
    nome: Seq<char>,
    bilhetes_vendidos: u32,
    ano: u32,
    mes: u8,
    dia: u8,
    genero: Genero,
)
    requires
        c.ids_ascending(),
        c.has_fresh_id(),
        c.add(nome, bilhetes_vendidos, ano, mes, dia, genero) is Ok,
    ensures
        c.add(nome, bilhetes_vendidos, ano, mes, dia, genero)->Ok_0.ids_ascending(),
{
    let after = c.add(nome, bilhetes_vendidos, ano, mes, dia, genero)->Ok_0;
    assert forall|i: int, j: int| 0 <= i < j < after.index.len() implies (
    #[trigger] after.index[i]).id < (#[trigger] after.index[j]).id by {
        if j == c.index.len() {
            assert(c.index[i].id <= c.index[c.index.len() - 1].id);
        } else {
            assert(c.index[i].id < c.index[j].id);
        }
    }
}

/// Updating a record changes no identifier.
pub proof fn lemma_update_preserves_id_order(
    c: CatalogView,
    id: u32,
    nome: Seq<char>,
    bilhetes_vendidos: u32,
    ano: u32,
    mes: u8,
    dia: u8,
    genero: Genero,
)
    requires
        c.ids_ascending(),
        c.update(id, nome, bilhetes_vendidos, ano, mes, dia, genero) is Ok,
    ensures
        c.update(id, nome, bilhetes_vendidos, ano, mes, dia, genero)->Ok_0.ids_ascending(),
{
    lemma_resolve_is_first(c, id, c.resolve(id)->Ok_0);
}

/// Deleting a record keeps the identifiers of the others in order.
pub proof fn lemma_delete_preserves_id_order(c: CatalogView, id: u32)
    requires
        c.ids_ascending(),
        c.delete(id) is Ok,
    ensures
        c.delete(id)->Ok_0.ids_ascending(),
{
    lemma_resolve_is_first(c, id, c.resolve(id)->Ok_0);
}

} // verus!
