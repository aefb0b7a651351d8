use vstd::prelude::*;

use crate::cuenta::AccountId;
use crate::error::Error;
use crate::usuario::{buscar_usuario, existe_usuario, ids_distintos, Usuario};

verus! {

/// One election: its office, its window in milliseconds, the votes of each
/// candidate, and the users registered in it and who have voted.
pub struct Eleccion {
    pub id: u64,
    pub cargo: String,
    pub fecha_inicio: u64,
    pub fecha_fin: u64,
    /// Candidate identity and votes, one entry per candidate.
    pub candidatos: Vec<(AccountId, u64)>,
    pub candidatos_publicos: Vec<Usuario>,
    pub votantes: Vec<Usuario>,
    pub votantes_que_votaron: Vec<Usuario>,
}

/// An election as a value: its lists as sequences.
pub struct EleccionV {
    pub id: u64,
    pub cargo: String,
    pub fecha_inicio: u64,
    pub fecha_fin: u64,
    pub candidatos: Seq<(AccountId, u64)>,
    pub candidatos_publicos: Seq<Usuario>,
    pub votantes: Seq<Usuario>,
    pub votantes_que_votaron: Seq<Usuario>,
}

impl View for Eleccion {
    type V = EleccionV;

    open spec fn view(&self) -> EleccionV {
        EleccionV {
            id: self.id,
            cargo: self.cargo,
            fecha_inicio: self.fecha_inicio,
            fecha_fin: self.fecha_fin,
            candidatos: self.candidatos@,
            candidatos_publicos: self.candidatos_publicos@,
            votantes: self.votantes@,
            votantes_que_votaron: self.votantes_que_votaron@,
        }
    }
}

/// Where an election stands at a given time.
#[derive(Debug, Clone, Copy, PartialEq, Eq, Structural)]
pub enum Fase {
    NoAbierta,
    Activa,
    Cerrada,
}

pub open spec fn no_abierta(e: EleccionV, ahora: u64) -> bool {
    ahora < e.fecha_inicio
}

pub open spec fn activa(e: EleccionV, ahora: u64) -> bool {
    e.fecha_inicio <= ahora <= e.fecha_fin
}

pub open spec fn cerrada(e: EleccionV, ahora: u64) -> bool {
    ahora > e.fecha_fin
}

/// The phase of an election: not yet open before its start, closed after its
/// end, active in between.
pub open spec fn fase_de(e: EleccionV, ahora: u64) -> Fase {
    if no_abierta(e, ahora) {
        Fase::NoAbierta
    } else if cerrada(e, ahora) {
        Fase::Cerrada
    } else {
        Fase::Activa
    }
}

/// For an election whose start is not after its end, at every time exactly one
/// of the three phases holds, and it is the one that `fase_de` gives.
pub proof fn ley_particion_de_fases(e: EleccionV, ahora: u64)
    requires
        e.fecha_inicio <= e.fecha_fin,
    ensures
        no_abierta(e, ahora) ==> !activa(e, ahora) && !cerrada(e, ahora),
        activa(e, ahora) ==> !no_abierta(e, ahora) && !cerrada(e, ahora),
        cerrada(e, ahora) ==> !no_abierta(e, ahora) && !activa(e, ahora),
        no_abierta(e, ahora) || activa(e, ahora) || cerrada(e, ahora),
        fase_de(e, ahora) == Fase::NoAbierta <==> no_abierta(e, ahora),
        fase_de(e, ahora) == Fase::Activa <==> activa(e, ahora),
        fase_de(e, ahora) == Fase::Cerrada <==> cerrada(e, ahora),
{
}

/// Some entry of the tally belongs to `id`.
pub open spec fn tiene_candidato(t: Seq<(AccountId, u64)>, id: AccountId) -> bool {
    exists|i: int| 0 <= i < t.len() && t[i].0 == id
}

/// The position of `id`'s entry in the tally.
pub open spec fn indice_candidato(t: Seq<(AccountId, u64)>, id: AccountId) -> int {
    choose|i: int| 0 <= i < t.len() && t[i].0 == id
}

/// No two entries of the tally belong to one candidate.
pub open spec fn claves_unicas(t: Seq<(AccountId, u64)>) -> bool {
    forall|i: int, j: int| 0 <= i < t.len() && 0 <= j < t.len() && i != j ==> t[i].0 != t[j].0
}

/// All the votes in the tally.
pub open spec fn suma_votos(t: Seq<(AccountId, u64)>) -> int
    decreases t.len(),
{
    if t.len() == 0 {
        0
    } else {
        suma_votos(t.drop_last()) + t.last().1
    }
}

/// One more vote at position `k` adds one to the sum.
pub proof fn lema_suma_un_voto(t: Seq<(AccountId, u64)>, k: int)
    requires
        0 <= k < t.len(),
        t[k].1 < u64::MAX,
    ensures
        suma_votos(t.update(k, (t[k].0, (t[k].1 + 1) as u64))) == suma_votos(t) + 1,
    decreases t.len(),
{
    let u = t.update(k, (t[k].0, (t[k].1 + 1) as u64));
    if k == t.len() - 1 {
        assert(u.drop_last() =~= t.drop_last());
    } else {
        lema_suma_un_voto(t.drop_last(), k);
        assert(u.drop_last() =~= t.drop_last().update(k, (t[k].0, (t[k].1 + 1) as u64)));
    }
}

/// A new entry with no votes leaves the sum as it was.
pub proof fn lema_suma_entrada_nueva(t: Seq<(AccountId, u64)>, id: AccountId)
    ensures
        suma_votos(t.push((id, 0u64))) == suma_votos(t),
{
    assert(t.push((id, 0u64)).drop_last() =~= t);
}

/// What holds of each election in a well-formed registry: its id is its
/// position, a candidate has one entry in the tally, a user is registered and
/// votes at most once, and the votes add up to the number of voters who voted.
pub open spec fn eleccion_valida(e: EleccionV, pos: int) -> bool {
    &&& e.id == pos
    &&& claves_unicas(e.candidatos)
    &&& ids_distintos(e.votantes)
    &&& ids_distintos(e.votantes_que_votaron)
    &&& suma_votos(e.candidatos) == e.votantes_que_votaron.len()
}

/// What a vote of `votante` for `candidato` does to the election: the candidate
/// must be in the tally, the voter must not have voted, and the count must
/// not overflow; then one more vote for the candidate and the voter among those
/// who voted.
pub open spec fn tras_votar_en_eleccion(e: EleccionV, candidato: AccountId, votante: Usuario) -> (
    EleccionV,
    Result<(), Error>,
) {
    if !tiene_candidato(e.candidatos, candidato) {
        (e, Err(Error::CandidatoNoExiste))
    } else if existe_usuario(e.votantes_que_votaron, votante.id) {
        (e, Err(Error::UsuarioYaVoto))
    } else {
        let k = indice_candidato(e.candidatos, candidato);
        let votos = e.candidatos[k].1;
        if votos == u64::MAX {
            (e, Err(Error::Overflow))
        } else {
            (
                EleccionV {
                    candidatos: e.candidatos.update(k, (candidato, (votos + 1) as u64)),
                    votantes_que_votaron: e.votantes_que_votaron.push(votante),
                    ..e
                },
                Ok(()),
            )
        }
    }
}

impl Eleccion {
    /// Records a vote of `votante` for `id_candidato`: the count and the list
    /// of who voted change together, or neither does.
    pub fn votar_en_eleccion(&mut self, id_candidato: AccountId, votante: Usuario) -> (r: Result<
        (),
        Error,
    >)
        requires
            claves_unicas(old(self)@.candidatos),
        ensures
            (final(self)@, r) == tras_votar_en_eleccion(old(self)@, id_candidato, votante),
            forall|pos: int| eleccion_valida(old(self)@, pos) ==> eleccion_valida(final(self)@, pos),
    {
        let c = match buscar_candidato(&self.candidatos, &id_candidato) {
            Some(c) => c,
            None => return Err(Error::CandidatoNoExiste),
        };
        if buscar_usuario(&self.votantes_que_votaron, &votante.id).is_some() {
            return Err(Error::UsuarioYaVoto);
        }
        let votos = self.candidatos[c].1;
        let nuevos = match votos.checked_add(1) {
            Some(n) => n,
            None => return Err(Error::Overflow),
        };
        let ghost e = self@;
        let ghost u = votante;
        self.candidatos.set(c, (id_candidato, nuevos));
        self.votantes_que_votaron.push(votante);
        proof {
            lema_suma_un_voto(e.candidatos, c as int);
            let t = e.candidatos.update(c as int, (id_candidato, nuevos));
            assert(claves_unicas(t)) by {
                assert forall|p: int, q: int|
                    0 <= p < t.len() && 0 <= q < t.len() && p != q implies t[p].0 != t[q].0 by {
                    assert(t[p].0 == e.candidatos[p].0);
                    assert(t[q].0 == e.candidatos[q].0);
                }
            }
            let vs = e.votantes_que_votaron;
            assert(ids_distintos(vs) ==> ids_distintos(vs.push(u))) by {
                if ids_distintos(vs) {
                    assert forall|p: int, q: int|
                        0 <= p < vs.len() + 1 && 0 <= q < vs.len() + 1 && p != q implies vs.push(u)[p].id
                        != vs.push(u)[q].id by {
                        if p == vs.len() {
                            assert(vs.push(u)[q] == vs[q]);
                        } else if q == vs.len() {
                            assert(vs.push(u)[p] == vs[p]);
                        }
                    }
                }
            }
        }
        Ok(())
    }
}

/// The position of `id`'s entry in the tally, if it has one.
pub fn buscar_candidato(t: &Vec<(AccountId, u64)>, id: &AccountId) -> (r: Option<usize>)
    ensures
        r is None <==> !tiene_candidato(t@, *id),
        r matches Some(i) ==> i < t@.len() && t@[i as int].0 == *id,
        r matches Some(i) ==> (claves_unicas(t@) ==> i == indice_candidato(t@, *id)),
{
    let mut i: usize = 0;
    while i < t.len()
        invariant
            i <= t@.len(),
            forall|j: int| 0 <= j < i ==> t@[j].0 != *id,
        decreases t@.len() - i,
    {
        if t[i].0 == *id {
            return Some(i);
        }
        i = i + 1;
    }
    None
}

/// A copy of a tally, entry for entry.
pub fn copiar_votos(t: &Vec<(AccountId, u64)>) -> (r: Vec<(AccountId, u64)>)
    ensures
        r@ == t@,
{
    let mut r: Vec<(AccountId, u64)> = Vec::new();
    let mut i: usize = 0;
    while i < t.len()
        invariant
            i <= t@.len(),
            r@ == t@.subrange(0, i as int),
        decreases t@.len() - i,
    {
        r.push(t[i]);
        i = i + 1;
        assert(r@ =~= t@.subrange(0, i as int));
    }
    assert(t@.subrange(0, t@.len() as int) =~= t@);
    r
}

} // verus!
