use vstd::prelude::*;

use crate::cuenta::{
    comparar_ids, id_menor, lema_menor_irreflexivo, lema_menor_transitivo, AccountId, Orden,
};
use crate::eleccion::{claves_unicas, eleccion_valida};
use crate::error::Error;
use crate::sistema::{error_consulta, SistemaVotacion};
use crate::usuario::Usuario;

verus! {

/// The report service: it reads the registry under its own identity, so the
/// registry answers it only while that identity is the configured reader.
pub struct Reporte {
    pub cuenta: AccountId,
}

/// The voters registered in an election.
#[derive(Debug, Clone, PartialEq, Eq)]
pub struct ReporteRegistroVotantes {
    pub nro_eleccion: u64,
    pub votantes: Vec<Usuario>,
}

/// How many of the registered voters voted in an election, as a count and as a
/// whole percentage.
#[derive(Debug, Clone, Copy, PartialEq, Eq, Structural)]
pub struct ReporteParticipacion {
    pub nro_eleccion: u64,
    pub cantidad_votos_emitidos: u64,
    pub porcentaje_participacion: u64,
}

/// The candidates of an election, most votes first.
#[derive(Debug, Clone, PartialEq, Eq)]
pub struct ReporteResultado {
    pub nro_eleccion: u64,
    pub resultados_ordenados: Vec<(AccountId, u64)>,
}

/// Why a report on an election with the given window cannot be made at time
/// `ahora`, if it cannot: the election must have started and closed.
pub open spec fn error_de_cierre(inicio: u64, fin: u64, ahora: u64) -> Option<Error> {
    if ahora < inicio {
        Some(Error::EleccionNoActiva)
    } else if ahora <= fin {
        Some(Error::EleccionAbierta)
    } else {
        None
    }
}

/// The participation report: `emitidos * 100 / registrados`, rounded down; the
/// product must fit in a `u64`, and no registered voters is an overflow too.
pub open spec fn participacion_de(
    id: u64,
    inicio: u64,
    fin: u64,
    ahora: u64,
    emitidos: int,
    registrados: int,
) -> Result<ReporteParticipacion, Error> {
    match error_de_cierre(inicio, fin, ahora) {
        Some(e) => Err(e),
        None => if emitidos * 100 > u64::MAX || registrados == 0 {
            Err(Error::Overflow)
        } else {
            Ok(
                ReporteParticipacion {
                    nro_eleccion: id,
                    cantidad_votos_emitidos: emitidos as u64,
                    porcentaje_participacion: (emitidos * 100 / registrados) as u64,
                },
            )
        },
    }
}

/// In a ranking `a` goes before `b`: it has more votes, or as many and a
/// smaller identity.
pub open spec fn va_antes(a: (AccountId, u64), b: (AccountId, u64)) -> bool {
    a.1 > b.1 || (a.1 == b.1 && id_menor(a.0, b.0))
}

/// Each entry goes before every later one.
pub open spec fn ordenado(r: Seq<(AccountId, u64)>) -> bool {
    forall|i: int, j: int| 0 <= i < j < r.len() ==> va_antes(r[i], r[j])
}

/// `r` holds the entries of `t`, each once: the ranking of the tally `t`.
pub open spec fn es_ranking(r: Seq<(AccountId, u64)>, t: Seq<(AccountId, u64)>) -> bool {
    &&& r.len() == t.len()
    &&& forall|e: (AccountId, u64)| r.contains(e) <==> t.contains(e)
    &&& ordenado(r)
}

/// `e` is among the first `k` entries of `t`.
spec fn de_prefijo(e: (AccountId, u64), t: Seq<(AccountId, u64)>, k: int) -> bool {
    exists|j: int| 0 <= j < k && t[j] == e
}

proof fn lema_antes_transitivo(a: (AccountId, u64), b: (AccountId, u64), c: (AccountId, u64))
    requires
        va_antes(a, b),
        va_antes(b, c),
    ensures
        va_antes(a, c),
{
    if a.1 == b.1 && b.1 == c.1 {
        lema_menor_transitivo(a.0, b.0, c.0);
    }
}

proof fn lema_antes_irreflexivo(a: (AccountId, u64))
    ensures
        !va_antes(a, a),
{
    lema_menor_irreflexivo(a.0);
}

/// Two ordered sequences with the same entries and length are equal.
proof fn lema_ordenados_iguales(a: Seq<(AccountId, u64)>, b: Seq<(AccountId, u64)>)
    requires
        ordenado(a),
        ordenado(b),
        a.len() == b.len(),
        forall|e: (AccountId, u64)| a.contains(e) <==> b.contains(e),
    ensures
        a == b,
    decreases a.len(),
{
    if a.len() > 0 {
        assert(a.contains(a[0]));
        assert(b.contains(b[0]));
        let j = choose|j: int| 0 <= j < b.len() && b[j] == a[0];
        let m = choose|m: int| 0 <= m < a.len() && a[m] == b[0];
        if j > 0 {
            assert(va_antes(b[0], a[0]));
            if m > 0 {
                assert(va_antes(a[0], b[0]));
                lema_antes_transitivo(a[0], b[0], a[0]);
            }
            lema_antes_irreflexivo(a[0]);
        }
        assert(a[0] == b[0]);
        let a1 = a.drop_first();
        let b1 = b.drop_first();
        assert forall|e: (AccountId, u64)| a1.contains(e) <==> b1.contains(e) by {
            if a1.contains(e) {
                let i = choose|i: int| 0 <= i < a1.len() && a1[i] == e;
                assert(a[i + 1] == e);
                assert(va_antes(a[0], a[i + 1]));
                lema_antes_irreflexivo(e);
                assert(b.contains(e));
                let k = choose|k: int| 0 <= k < b.len() && b[k] == e;
                assert(k != 0);
                assert(b1[k - 1] == e);
            }
            if b1.contains(e) {
                let i = choose|i: int| 0 <= i < b1.len() && b1[i] == e;
                assert(b[i + 1] == e);
                assert(va_antes(b[0], b[i + 1]));
                lema_antes_irreflexivo(e);
                assert(a.contains(e));
                let k = choose|k: int| 0 <= k < a.len() && a[k] == e;
                assert(k != 0);
                assert(a1[k - 1] == e);
            }
        }
        assert(ordenado(a1)) by {
            assert forall|p: int, q: int| 0 <= p < q < a1.len() implies va_antes(a1[p], a1[q]) by {
                assert(va_antes(a[p + 1], a[q + 1]));
            }
        }
        assert(ordenado(b1)) by {
            assert forall|p: int, q: int| 0 <= p < q < b1.len() implies va_antes(b1[p], b1[q]) by {
                assert(va_antes(b[p + 1], b[q + 1]));
            }
        }
        lema_ordenados_iguales(a1, b1);
        assert(a =~= b) by {
            assert forall|i: int| 0 <= i < a.len() implies a[i] == b[i] by {
                if i > 0 {
                    assert(a[i] == a1[i - 1]);
                    assert(b[i] == b1[i - 1]);
                }
            }
        }
    }
}

/// A tally has one ranking only: the order by votes, then by identity, leaves
/// nothing to choose, so a results report is the same however it is computed.
pub proof fn ley_ranking_unico(
    r1: Seq<(AccountId, u64)>,
    r2: Seq<(AccountId, u64)>,
    t: Seq<(AccountId, u64)>,
)
    requires
        es_ranking(r1, t),
        es_ranking(r2, t),
    ensures
        r1 == r2,
{
    lema_ordenados_iguales(r1, r2);
}

/// Inserting `x` after all that go before it and before the rest keeps a
/// sequence ordered.
proof fn lema_insertar_ordenado(r: Seq<(AccountId, u64)>, p: int, x: (AccountId, u64))
    requires
        ordenado(r),
        0 <= p <= r.len(),
        forall|q: int| 0 <= q < p ==> va_antes(#[trigger] r[q], x),
        p < r.len() ==> va_antes(x, r[p]),
    ensures
        ordenado(r.insert(p, x)),
{
    let s = r.insert(p, x);
    assert forall|i: int, j: int| 0 <= i < j < s.len() implies va_antes(s[i], s[j]) by {
        if j < p {
            assert(s[i] == r[i] && s[j] == r[j]);
        } else if j == p {
            assert(s[i] == r[i]);
        } else if i == p {
            assert(s[j] == r[j - 1]);
            if j - 1 > p {
                lema_antes_transitivo(x, r[p], r[j - 1]);
            }
        } else if i < p {
            assert(s[i] == r[i] && s[j] == r[j - 1]);
        } else {
            assert(s[i] == r[i - 1] && s[j] == r[j - 1]);
        }
    }
}

/// Whether `a` goes before `b` in a ranking.
fn va_antes_exec(a: &(AccountId, u64), b: &(AccountId, u64)) -> (r: bool)
    ensures
        r == va_antes(*a, *b),
        !r && a.0 != b.0 ==> va_antes(*b, *a),
{
    if a.1 != b.1 {
        return a.1 > b.1;
    }
    match comparar_ids(&a.0, &b.0) {
        Orden::Menor => true,
        Orden::Igual => false,
        Orden::Mayor => false,
    }
}

/// The tally ranked: most votes first, and among equal counts the smaller
/// identity first.
pub fn ordenar_resultados(t: &Vec<(AccountId, u64)>) -> (r: Vec<(AccountId, u64)>)
    requires
        claves_unicas(t@),
    ensures
        es_ranking(r@, t@),
{
    let mut r: Vec<(AccountId, u64)> = Vec::new();
    let mut k: usize = 0;
    while k < t.len()
        invariant
            k <= t@.len(),
            claves_unicas(t@),
            r@.len() == k,
            ordenado(r@),
            forall|i: int| 0 <= i < k ==> r@.contains(#[trigger] t@[i]),
            forall|i: int| 0 <= i < r@.len() ==> de_prefijo(#[trigger] r@[i], t@, k as int),
        decreases t@.len() - k,
    {
        let x = t[k];
        let mut p: usize = 0;
        while p < r.len() && !va_antes_exec(&x, &r[p])
            invariant
                p <= r@.len(),
                forall|q: int| 0 <= q < p ==> va_antes(#[trigger] r@[q], x),
                x == t@[k as int],
                claves_unicas(t@),
                k < t@.len(),
                forall|i: int| 0 <= i < r@.len() ==> de_prefijo(#[trigger] r@[i], t@, k as int),
            decreases r@.len() - p,
        {
            proof {
                assert(de_prefijo(r@[p as int], t@, k as int));
                let j = choose|j: int| 0 <= j < k && t@[j] == r@[p as int];
                assert(t@[j].0 != t@[k as int].0);
            }
            p = p + 1;
        }
        let ghost viejo = r@;
        proof {
            lema_insertar_ordenado(viejo, p as int, x);
        }
        r.insert(p, x);
        proof {
            assert forall|i: int| 0 <= i < k + 1 implies r@.contains(#[trigger] t@[i]) by {
                if i == k {
                    assert(r@[p as int] == x);
                } else {
                    let m = choose|m: int| 0 <= m < viejo.len() && viejo[m] == t@[i];
                    if m < p {
                        assert(r@[m] == t@[i]);
                    } else {
                        assert(r@[m + 1] == t@[i]);
                    }
                }
            }
            assert forall|i: int| 0 <= i < r@.len() implies de_prefijo(
                #[trigger] r@[i],
                t@,
                k + 1,
            ) by {
                if i < p {
                    assert(r@[i] == viejo[i]);
                    assert(de_prefijo(viejo[i], t@, k as int));
                    let j = choose|j: int| 0 <= j < k && t@[j] == viejo[i];
                    assert(r@[i] == t@[j]);
                } else if i == p {
                    assert(r@[i] == t@[k as int]);
                } else {
                    assert(r@[i] == viejo[i - 1]);
                    assert(de_prefijo(viejo[i - 1], t@, k as int));
                    let j = choose|j: int| 0 <= j < k && t@[j] == viejo[i - 1];
                    assert(r@[i] == t@[j]);
                }
            }
        }
        k = k + 1;
    }
    proof {
        assert forall|e: (AccountId, u64)| r@.contains(e) <==> t@.contains(e) by {
            if r@.contains(e) {
                let i = choose|i: int| 0 <= i < r@.len() && r@[i] == e;
                assert(de_prefijo(r@[i], t@, k as int));
                let j = choose|j: int| 0 <= j < k && t@[j] == r@[i];
                assert(t@[j] == e);
            }
            if t@.contains(e) {
                let i = choose|i: int| 0 <= i < t@.len() && t@[i] == e;
                assert(r@.contains(t@[i]));
            }
        }
    }
    r
}

/// The participation report on election `id`, from its window, the time, and
/// how many voters voted and are registered.
pub fn calcular_participacion(
    id: u64,
    inicio: u64,
    fin: u64,
    ahora: u64,
    emitidos: u64,
    registrados: u64,
) -> (r: Result<ReporteParticipacion, Error>)
    ensures
        r == participacion_de(id, inicio, fin, ahora, emitidos as int, registrados as int),
{
    if ahora < inicio {
        return Err(Error::EleccionNoActiva);
    }
    if ahora <= fin {
        return Err(Error::EleccionAbierta);
    }
    let producto = match emitidos.checked_mul(100) {
        Some(p) => p,
        None => return Err(Error::Overflow),
    };
    let porcentaje = match producto.checked_div(registrados) {
        Some(p) => p,
        None => return Err(Error::Overflow),
    };
    Ok(
        ReporteParticipacion {
            nro_eleccion: id,
            cantidad_votos_emitidos: emitidos,
            porcentaje_participacion: porcentaje,
        },
    )
}

/// The results report on election `id`, from its window, the time, and its tally.
pub fn calcular_resultado(
    id: u64,
    inicio: u64,
    fin: u64,
    ahora: u64,
    candidatos: &Vec<(AccountId, u64)>,
) -> (r: Result<ReporteResultado, Error>)
    requires
        claves_unicas(candidatos@),
    ensures
        error_de_cierre(inicio, fin, ahora) matches Some(e) ==> r is Err && r->Err_0 == e,
        error_de_cierre(inicio, fin, ahora) is None ==> r is Ok && r->Ok_0.nro_eleccion == id
            && es_ranking(r->Ok_0.resultados_ordenados@, candidatos@),
{
    if ahora < inicio {
        return Err(Error::EleccionNoActiva);
    }
    if ahora <= fin {
        return Err(Error::EleccionAbierta);
    }
    Ok(ReporteResultado { nro_eleccion: id, resultados_ordenados: ordenar_resultados(candidatos) })
}

impl Reporte {
    /// A report service that reads the registry as `cuenta`.
    pub fn new(cuenta: AccountId) -> (r: Reporte)
        ensures
            r.cuenta == cuenta,
    {
        Reporte { cuenta }
    }

    /// The number of elections, as the registry answers this service.
    pub fn get_tamanio_elecciones(&self, sistema: &SistemaVotacion) -> (r: Result<u64, Error>)
        ensures
            self.cuenta != sistema@.id_contrato_reporte ==> r == Err::<u64, Error>(
                Error::PermisoDenegado,
            ),
            self.cuenta == sistema@.id_contrato_reporte ==> r == Ok::<u64, Error>(
                sistema@.elecciones.len() as u64,
            ),
            sistema@.elecciones.len() <= usize::MAX,
    {
        sistema.get_tamanio_elecciones(self.cuenta)
    }

    /// The start of election `id`, as the registry answers this service.
    pub fn get_fecha_inicio(&self, sistema: &SistemaVotacion, id: u64) -> (r: Result<u64, Error>)
        ensures
            error_consulta(sistema@, self.cuenta, id) matches Some(e) ==> r == Err::<u64, Error>(e),
            error_consulta(sistema@, self.cuenta, id) is None ==> r == Ok::<u64, Error>(
                sistema@.elecciones[id as int].fecha_inicio,
            ),
    {
        sistema.get_fecha_inicio(self.cuenta, id)
    }

    /// The end of election `id`, as the registry answers this service.
    pub fn get_fecha_fin(&self, sistema: &SistemaVotacion, id: u64) -> (r: Result<u64, Error>)
        ensures
            error_consulta(sistema@, self.cuenta, id) matches Some(e) ==> r == Err::<u64, Error>(e),
            error_consulta(sistema@, self.cuenta, id) is None ==> r == Ok::<u64, Error>(
                sistema@.elecciones[id as int].fecha_fin,
            ),
    {
        sistema.get_fecha_fin(self.cuenta, id)
    }

    /// The voters registered in election `id`, as the registry answers this service.
    pub fn get_votantes(&self, sistema: &SistemaVotacion, id: u64) -> (r: Result<
        Vec<Usuario>,
        Error,
    >)
        ensures
            error_consulta(sistema@, self.cuenta, id) matches Some(e) ==> r is Err && r->Err_0 == e,
            error_consulta(sistema@, self.cuenta, id) is None ==> r is Ok && r->Ok_0@
                == sistema@.elecciones[id as int].votantes,
    {
        sistema.get_votantes(self.cuenta, id)
    }

    /// The voters who voted in election `id`, as the registry answers this service.
    pub fn get_votantes_que_votaron(&self, sistema: &SistemaVotacion, id: u64) -> (r: Result<
        Vec<Usuario>,
        Error,
    >)
        ensures
            error_consulta(sistema@, self.cuenta, id) matches Some(e) ==> r is Err && r->Err_0 == e,
            error_consulta(sistema@, self.cuenta, id) is None ==> r is Ok && r->Ok_0@
                == sistema@.elecciones[id as int].votantes_que_votaron,
    {
        sistema.get_votantes_que_votaron(self.cuenta, id)
    }

    /// The tally of election `id`, as the registry answers this service.
    pub fn get_candidatos(&self, sistema: &SistemaVotacion, id: u64) -> (r: Result<
        Vec<(AccountId, u64)>,
        Error,
    >)
        ensures
            error_consulta(sistema@, self.cuenta, id) matches Some(e) ==> r is Err && r->Err_0 == e,
            error_consulta(sistema@, self.cuenta, id) is None ==> r is Ok && r->Ok_0@
                == sistema@.elecciones[id as int].candidatos,
    {
        sistema.get_candidatos(self.cuenta, id)
    }

    /// The voters registered in election `id`, in any phase.
    pub fn generar_reporte_registro_votantes(&self, sistema: &SistemaVotacion, id: u64) -> (r:
        Result<ReporteRegistroVotantes, Error>)
        ensures
            error_consulta(sistema@, self.cuenta, id) matches Some(e) ==> r is Err && r->Err_0 == e,
            error_consulta(sistema@, self.cuenta, id) is None ==> r is Ok && r->Ok_0.nro_eleccion
                == id && r->Ok_0.votantes@ == sistema@.elecciones[id as int].votantes,
    {
        let tamanio = match self.get_tamanio_elecciones(sistema) {
            Ok(n) => n,
            Err(e) => return Err(e),
        };
        if id >= tamanio {
            return Err(Error::EleccionNoExiste);
        }
        let votantes = match self.get_votantes(sistema, id) {
            Ok(v) => v,
            Err(e) => return Err(e),
        };
        Ok(ReporteRegistroVotantes { nro_eleccion: id, votantes })
    }

    /// The participation in election `id`, once it has closed at time `ahora`.
    pub fn generar_reporte_participacion(&self, sistema: &SistemaVotacion, id: u64, ahora: u64) -> (r:
        Result<ReporteParticipacion, Error>)
        ensures
            error_consulta(sistema@, self.cuenta, id) matches Some(e) ==> r == Err::<
                ReporteParticipacion,
                Error,
            >(e),
            error_consulta(sistema@, self.cuenta, id) is None ==> r == participacion_de(
                id,
                sistema@.elecciones[id as int].fecha_inicio,
                sistema@.elecciones[id as int].fecha_fin,
                ahora,
                sistema@.elecciones[id as int].votantes_que_votaron.len() as int,
                sistema@.elecciones[id as int].votantes.len() as int,
            ),
    {
        let fecha_cierre = match self.get_fecha_fin(sistema, id) {
            Ok(f) => f,
            Err(e) => return Err(e),
        };
        let fecha_inicio = match self.get_fecha_inicio(sistema, id) {
            Ok(f) => f,
            Err(e) => return Err(e),
        };
        let votaron = match self.get_votantes_que_votaron(sistema, id) {
            Ok(v) => v,
            Err(e) => return Err(e),
        };
        let votantes = match self.get_votantes(sistema, id) {
            Ok(v) => v,
            Err(e) => return Err(e),
        };
        calcular_participacion(
            id,
            fecha_inicio,
            fecha_cierre,
            ahora,
            votaron.len() as u64,
            votantes.len() as u64,
        )
    }

    /// The results of election `id`, once it has closed at time `ahora`.
    pub fn generar_reporte_resultado(&self, sistema: &SistemaVotacion, id: u64, ahora: u64) -> (r:
        Result<ReporteResultado, Error>)
        requires
            sistema.wf(),
        ensures
            error_consulta(sistema@, self.cuenta, id) matches Some(e) ==> r is Err && r->Err_0 == e,
            error_consulta(sistema@, self.cuenta, id) is None ==> ({
                let e = sistema@.elecciones[id as int];
                &&& error_de_cierre(e.fecha_inicio, e.fecha_fin, ahora) matches Some(x) ==> r is Err
                    && r->Err_0 == x
                &&& error_de_cierre(e.fecha_inicio, e.fecha_fin, ahora) is None ==> r is Ok
                    && r->Ok_0.nro_eleccion == id && es_ranking(
                    r->Ok_0.resultados_ordenados@,
                    e.candidatos,
                )
            }),
    {
        let fecha_cierre = match self.get_fecha_fin(sistema, id) {
            Ok(f) => f,
            Err(e) => return Err(e),
        };
        let fecha_inicio = match self.get_fecha_inicio(sistema, id) {
            Ok(f) => f,
            Err(e) => return Err(e),
        };
        let candidatos = match self.get_candidatos(sistema, id) {
            Ok(c) => c,
            Err(e) => return Err(e),
        };
        assert(eleccion_valida(sistema@.elecciones[id as int], id as int));
        calcular_resultado(id, fecha_inicio, fecha_cierre, ahora, &candidatos)
    }
}

} // verus!
