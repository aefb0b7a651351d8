use vstd::prelude::*;

use crate::cuenta::AccountId;
use crate::eleccion::{
    activa, eleccion_valida, fase_de, no_abierta, suma_votos, tiene_candidato, Fase,
};
use crate::error::Error;
use crate::fecha::Fecha;
use crate::sistema::{
    error_consulta, estado_valido, tras_crear_eleccion, tras_registrar_usuario,
    tras_registrar_votante, tras_votar, EstadoSistema,
};
use crate::usuario::{existe_usuario, ids_distintos, usuario_de, RolUsuario, Usuario};

verus! {

/// No two users share an identity, and none has the admin's.
pub open spec fn identidades_unicas(s: EstadoSistema) -> bool {
    ids_distintos(s.usuarios) && !existe_usuario(s.usuarios, s.admin.id)
}

/// The registry after each user of `altas`, in order, asks to register with
/// their own identity, name, contact and role.
pub open spec fn registrar_todos(s: EstadoSistema, altas: Seq<Usuario>) -> EstadoSistema
    decreases altas.len(),
{
    if altas.len() == 0 {
        s
    } else {
        let u = altas[0];
        registrar_todos(
            tras_registrar_usuario(s, u.id, u.nombre, u.email, u.rol).0,
            altas.drop_first(),
        )
    }
}

/// However many registrations follow one another, successful or not, no two
/// users come to share an identity and none comes to have the admin's. A
/// fresh registry, with no users, is where such a sequence starts.
pub proof fn ley_identidades_unicas(s: EstadoSistema, altas: Seq<Usuario>)
    requires
        identidades_unicas(s),
    ensures
        identidades_unicas(registrar_todos(s, altas)),
    decreases altas.len(),
{
    if altas.len() > 0 {
        let u = altas[0];
        let t = tras_registrar_usuario(s, u.id, u.nombre, u.email, u.rol).0;
        if u.id != s.admin.id && !existe_usuario(s.usuarios, u.id) {
            let nu = Usuario { id: u.id, nombre: u.nombre, email: u.email, rol: u.rol };
            assert(t.usuarios == s.usuarios.push(nu));
            assert forall|p: int, q: int|
                0 <= p < t.usuarios.len() && 0 <= q < t.usuarios.len() && p != q implies t.usuarios[p].id
                != t.usuarios[q].id by {
                if p == s.usuarios.len() {
                    assert(t.usuarios[q] == s.usuarios[q]);
                } else if q == s.usuarios.len() {
                    assert(t.usuarios[p] == s.usuarios[p]);
                }
            }
            assert(!existe_usuario(t.usuarios, t.admin.id)) by {
                if existe_usuario(t.usuarios, t.admin.id) {
                    let i = choose|i: int| 0 <= i < t.usuarios.len() && t.usuarios[i].id == t.admin.id;
                    if i < s.usuarios.len() {
                        assert(s.usuarios[i] == t.usuarios[i]);
                    }
                }
            }
        }
        ley_identidades_unicas(t, altas.drop_first());
    }
}

/// The registry after each request of `pedidos` to create an election, in
/// order, and what each returned.
pub open spec fn crear_todas(s: EstadoSistema, pedidos: Seq<(AccountId, String, Fecha, Fecha)>) -> (
    EstadoSistema,
    Seq<Result<u64, Error>>,
)
    decreases pedidos.len(),
{
    if pedidos.len() == 0 {
        (s, Seq::empty())
    } else {
        let (antes, rs) = crear_todas(s, pedidos.drop_last());
        let p = pedidos.last();
        let (despues, r) = tras_crear_eleccion(antes, p.0, p.1, p.2, p.3);
        (despues, rs.push(r))
    }
}

/// How many of the results are successes.
pub open spec fn exitos(rs: Seq<Result<u64, Error>>) -> nat
    decreases rs.len(),
{
    if rs.len() == 0 {
        0
    } else {
        exitos(rs.drop_last()) + if rs.last() is Ok {
            1nat
        } else {
            0nat
        }
    }
}

proof fn lema_exitos_cota(rs: Seq<Result<u64, Error>>)
    ensures
        exitos(rs) <= rs.len(),
    decreases rs.len(),
{
    if rs.len() > 0 {
        lema_exitos_cota(rs.drop_last());
    }
}

proof fn lema_exitos_prefijo(rs: Seq<Result<u64, Error>>, k: int, m: int)
    requires
        0 <= k <= m <= rs.len(),
    ensures
        exitos(rs.take(k)) <= exitos(rs.take(m)),
        k < m && rs[k] is Ok ==> exitos(rs.take(k)) < exitos(rs.take(m)),
    decreases m - k,
{
    if k < m {
        lema_exitos_prefijo(rs, k, m - 1);
        assert(rs.take(m).drop_last() =~= rs.take(m - 1));
        if k == m - 1 {
            assert(rs.take(m).last() == rs[k]);
        }
    }
}

/// Successful creations hand out ids one after another: the election created
/// by a success has as id the number of elections before the sequence plus the
/// number of successes before it, so from an empty store the n-th success gets
/// id n - 1. Elections already there keep their place, and a later success
/// always gets a larger id.
pub proof fn ley_ids_monotonos(s: EstadoSistema, pedidos: Seq<(AccountId, String, Fecha, Fecha)>)
    requires
        s.elecciones.len() + pedidos.len() <= usize::MAX,
    ensures
        ({
            let (t, rs) = crear_todas(s, pedidos);
            &&& rs.len() == pedidos.len()
            &&& t.elecciones.len() == s.elecciones.len() + exitos(rs)
            &&& t.elecciones.take(s.elecciones.len() as int) == s.elecciones
            &&& forall|k: int|
                0 <= k < rs.len() && #[trigger] rs[k] is Ok ==> rs[k]->Ok_0 == s.elecciones.len()
                    + exitos(rs.take(k)) && t.elecciones[rs[k]->Ok_0 as int].id == rs[k]->Ok_0
            &&& forall|k: int, m: int|
                0 <= k < m < rs.len() && #[trigger] rs[k] is Ok && #[trigger] rs[m] is Ok
                    ==> rs[k]->Ok_0 < rs[m]->Ok_0
        }),
    decreases pedidos.len(),
{
    let (t, rs) = crear_todas(s, pedidos);
    if pedidos.len() > 0 {
        let (antes, rs0) = crear_todas(s, pedidos.drop_last());
        ley_ids_monotonos(s, pedidos.drop_last());
        let p = pedidos.last();
        let n = rs0.len() as int;
        assert(rs.drop_last() =~= rs0);
        assert(rs.take(n) =~= rs0);
        assert(exitos(rs) == exitos(rs0) + if rs[n] is Ok { 1nat } else { 0nat });
        assert forall|k: int| 0 <= k < rs.len() && #[trigger] rs[k] is Ok implies rs[k]->Ok_0
            == s.elecciones.len() + exitos(rs.take(k)) && t.elecciones[rs[k]->Ok_0 as int].id
            == rs[k]->Ok_0 by {
            if k == n {
                lema_exitos_cota(rs0);
                assert(rs.take(k) =~= rs0);
            } else {
                assert(rs[k] == rs0[k]);
                assert(rs.take(k) =~= rs0.take(k));
                lema_exitos_prefijo(rs0, k, n);
                assert(rs0.take(n) =~= rs0);
                assert(t.elecciones[rs[k]->Ok_0 as int] == antes.elecciones[rs[k]->Ok_0 as int]);
            }
        }
        assert forall|k: int, m: int|
            0 <= k < m < rs.len() && #[trigger] rs[k] is Ok && #[trigger] rs[m] is Ok implies rs[k]->Ok_0
            < rs[m]->Ok_0 by {
            lema_exitos_prefijo(rs, k, m);
        }
        assert(t.elecciones.take(s.elecciones.len() as int) =~= s.elecciones) by {
            assert(antes.elecciones.take(s.elecciones.len() as int) == s.elecciones);
        }
    }
}

/// Every read of an election's internal data by an identity other than the
/// configured reader fails for want of permission, whether the election exists
/// or not.
pub proof fn ley_lecturas_restringidas(s: EstadoSistema, caller: AccountId, id: u64)
    requires
        caller != s.id_contrato_reporte,
    ensures
        error_consulta(s, caller, id) == Some(Error::PermisoDenegado),
{
}

/// In a well-formed registry the votes of every election add up to the number
/// of voters who voted, and no voter appears twice among them.
pub proof fn ley_votos_cuadran(s: EstadoSistema, id: int)
    requires
        estado_valido(s),
        0 <= id < s.elecciones.len(),
    ensures
        suma_votos(s.elecciones[id].candidatos) == s.elecciones[id].votantes_que_votaron.len(),
        ids_distintos(s.elecciones[id].votantes_que_votaron),
{
    assert(eleccion_valida(s.elecciones[id], id));
}

/// Once a vote of `caller` in an election is recorded, no later vote of theirs
/// there is: it fails, and where the election is active and the candidate
/// exists it fails because they already voted.
pub proof fn ley_voto_unico(
    s: EstadoSistema,
    caller: AccountId,
    id: u64,
    candidato: AccountId,
    ahora: u64,
    otro_candidato: AccountId,
    despues: u64,
)
    requires
        estado_valido(s),
        tras_votar(s, caller, id, candidato, ahora).1 is Ok,
    ensures
        ({
            let t = tras_votar(s, caller, id, candidato, ahora).0;
            let r = tras_votar(t, caller, id, otro_candidato, despues).1;
            &&& r is Err
            &&& activa(t.elecciones[id as int], despues) && tiene_candidato(
                t.elecciones[id as int].candidatos,
                otro_candidato,
            ) ==> r == Err::<(), Error>(Error::UsuarioYaVoto)
        }),
{
    let t = tras_votar(s, caller, id, candidato, ahora).0;
    let e = s.elecciones[id as int];
    let u = usuario_de(s.usuarios, caller)->Some_0;
    assert(u.id == caller);
    let f = t.elecciones[id as int];
    assert(f.votantes_que_votaron == e.votantes_que_votaron.push(u));
    assert(f.votantes_que_votaron[e.votantes_que_votaron.len() as int].id == caller);
    assert(existe_usuario(f.votantes_que_votaron, caller));
    assert(t.usuarios == s.usuarios);
}

/// Once an election has opened, whether active or closed, registering a voter
/// in it fails because it is open.
pub proof fn ley_registro_tras_apertura(s: EstadoSistema, caller: AccountId, id: u64, ahora: u64)
    requires
        id < s.elecciones.len(),
        fase_de(s.elecciones[id as int], ahora) != Fase::NoAbierta,
    ensures
        tras_registrar_votante(s, caller, id, ahora) == (s, Err::<(), Error>(Error::EleccionYaAbierta)),
{
}

/// Before an election opens, a registered voter not yet in it is registered
/// by the first call, and a second call fails because they already are.
pub proof fn ley_registro_una_vez(
    s: EstadoSistema,
    caller: AccountId,
    id: u64,
    ahora: u64,
    despues: u64,
)
    requires
        estado_valido(s),
        id < s.elecciones.len(),
        no_abierta(s.elecciones[id as int], ahora),
        no_abierta(s.elecciones[id as int], despues),
        usuario_de(s.usuarios, caller) matches Some(u) && u.rol == RolUsuario::Votante,
        !existe_usuario(s.elecciones[id as int].votantes, caller),
    ensures
        tras_registrar_votante(s, caller, id, ahora).1 is Ok,
        tras_registrar_votante(tras_registrar_votante(s, caller, id, ahora).0, caller, id, despues)
            == (tras_registrar_votante(s, caller, id, ahora).0, Err::<(), Error>(
            Error::UsuarioYaRegistrado,
        )),
{
    let t = tras_registrar_votante(s, caller, id, ahora).0;
    let e = s.elecciones[id as int];
    let u = usuario_de(s.usuarios, caller)->Some_0;
    assert(u.id == caller);
    let f = t.elecciones[id as int];
    assert(f.votantes == e.votantes.push(u));
    assert(f.votantes[e.votantes.len() as int].id == caller);
    assert(existe_usuario(f.votantes, caller));
    assert(t.usuarios == s.usuarios);
}

} // verus!
