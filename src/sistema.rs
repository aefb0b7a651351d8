use vstd::prelude::*;

use crate::cuenta::AccountId;
use crate::eleccion::{
    activa, buscar_candidato, cerrada, claves_unicas, copiar_votos, eleccion_valida, fase_de,
    lema_suma_entrada_nueva, no_abierta, tiene_candidato, tras_votar_en_eleccion, Eleccion,
    EleccionV, Fase,
};
use crate::error::Error;
use crate::fecha::{timestamp_de, Fecha};
use crate::usuario::{
    buscar_usuario, copiar_usuarios, existe_usuario, ids_distintos, usuario_de, Admin, RolUsuario,
    Usuario,
};

verus! {

/// The election registry: the admin, the registered users, the elections, and
/// the one identity allowed to read its internal data.
pub struct SistemaVotacion {
    id_contrato_reporte: AccountId,
    admin: Admin,
    elecciones: Vec<Eleccion>,
    usuarios: Vec<Usuario>,
}

/// The registry as a value.
pub struct EstadoSistema {
    pub id_contrato_reporte: AccountId,
    pub admin: Admin,
    pub elecciones: Seq<EleccionV>,
    pub usuarios: Seq<Usuario>,
}

impl View for SistemaVotacion {
    type V = EstadoSistema;

    closed spec fn view(&self) -> EstadoSistema {
        EstadoSistema {
            id_contrato_reporte: self.id_contrato_reporte,
            admin: self.admin,
            elecciones: self.elecciones@.map_values(|e: Eleccion| e@),
            usuarios: self.usuarios@,
        }
    }
}

/// A well-formed registry: users have distinct identities and every election
/// is valid.
pub open spec fn estado_valido(s: EstadoSistema) -> bool {
    &&& ids_distintos(s.usuarios)
    &&& forall|i: int| 0 <= i < s.elecciones.len() ==> #[trigger] eleccion_valida(s.elecciones[i], i)
}

/// The registry with election `i` replaced by `e`.
pub open spec fn con_eleccion(s: EstadoSistema, i: int, e: EleccionV) -> EstadoSistema {
    EstadoSistema { elecciones: s.elecciones.update(i, e), ..s }
}

/// A registry just set up by `caller`: the admin, with placeholder name,
/// contact and password, and the reader of internal data; no elections, no users.
pub open spec fn es_estado_inicial(s: EstadoSistema, caller: AccountId) -> bool {
    &&& s.id_contrato_reporte == caller
    &&& s.admin.id == caller
    &&& s.admin.nombre@ == "admin"@
    &&& s.admin.email@ == "mail.com"@
    &&& s.admin.password@ == "admin"@
    &&& s.elecciones.len() == 0
    &&& s.usuarios.len() == 0
}

/// What registering a user does to the registry, and what it returns.
pub open spec fn tras_registrar_usuario(
    s: EstadoSistema,
    caller: AccountId,
    nombre: String,
    email: String,
    rol: RolUsuario,
) -> (EstadoSistema, Result<(), Error>) {
    if caller == s.admin.id {
        (s, Err(Error::AdminNoPuedeRegistrarse))
    } else if existe_usuario(s.usuarios, caller) {
        (s, Err(Error::UsuarioYaRegistrado))
    } else {
        (
            EstadoSistema { usuarios: s.usuarios.push(Usuario { id: caller, nombre, email, rol }), ..s },
            Ok(()),
        )
    }
}

/// An election just created: no candidates, no voters, no votes.
pub open spec fn eleccion_nueva(id: u64, cargo: String, inicio: u64, fin: u64) -> EleccionV {
    EleccionV {
        id,
        cargo,
        fecha_inicio: inicio,
        fecha_fin: fin,
        candidatos: Seq::empty(),
        candidatos_publicos: Seq::empty(),
        votantes: Seq::empty(),
        votantes_que_votaron: Seq::empty(),
    }
}

/// What creating an election does to the registry, and what it returns.
pub open spec fn tras_crear_eleccion(
    s: EstadoSistema,
    caller: AccountId,
    cargo: String,
    inicio: Fecha,
    fin: Fecha,
) -> (EstadoSistema, Result<u64, Error>) {
    if caller != s.admin.id {
        (s, Err(Error::PermisoDenegado))
    } else {
        match (timestamp_de(inicio), timestamp_de(fin)) {
            (Err(e), _) => (s, Err(e)),
            (Ok(_), Err(e)) => (s, Err(e)),
            (Ok(a), Ok(b)) => {
                let id = s.elecciones.len() as u64;
                (
                    EstadoSistema {
                        elecciones: s.elecciones.push(eleccion_nueva(id, cargo, a, b)),
                        ..s
                    },
                    Ok(id),
                )
            },
        }
    }
}

/// What registering `caller` as a voter of election `id` at time `ahora` does.
pub open spec fn tras_registrar_votante(
    s: EstadoSistema,
    caller: AccountId,
    id: u64,
    ahora: u64,
) -> (EstadoSistema, Result<(), Error>) {
    if id >= s.elecciones.len() {
        (s, Err(Error::EleccionNoExiste))
    } else {
        let e = s.elecciones[id as int];
        if !no_abierta(e, ahora) {
            (s, Err(Error::EleccionYaAbierta))
        } else {
            match usuario_de(s.usuarios, caller) {
                Some(u) => if u.rol != RolUsuario::Votante {
                    (s, Err(Error::UsuarioNoVotante))
                } else if existe_usuario(e.votantes, caller) {
                    (s, Err(Error::UsuarioYaRegistrado))
                } else {
                    (
                        con_eleccion(s, id as int, EleccionV { votantes: e.votantes.push(u), ..e }),
                        Ok(()),
                    )
                },
                None => (s, Err(Error::UsuarioNoVotante)),
            }
        }
    }
}

/// What registering `caller` as a candidate of election `id` at time `ahora` does.
pub open spec fn tras_registrar_candidato(
    s: EstadoSistema,
    caller: AccountId,
    id: u64,
    ahora: u64,
) -> (EstadoSistema, Result<(), Error>) {
    if id >= s.elecciones.len() {
        (s, Err(Error::EleccionNoExiste))
    } else {
        let e = s.elecciones[id as int];
        if !no_abierta(e, ahora) {
            (s, Err(Error::EleccionYaAbierta))
        } else {
            match usuario_de(s.usuarios, caller) {
                Some(u) => if u.rol != RolUsuario::Candidato {
                    (s, Err(Error::UsuarioNoCandidato))
                } else if tiene_candidato(e.candidatos, caller) {
                    (s, Err(Error::UsuarioYaRegistrado))
                } else {
                    (
                        con_eleccion(
                            s,
                            id as int,
                            EleccionV {
                                candidatos: e.candidatos.push((caller, 0u64)),
                                candidatos_publicos: e.candidatos_publicos.push(u),
                                ..e
                            },
                        ),
                        Ok(()),
                    )
                },
                None => (s, Err(Error::UsuarioNoCandidato)),
            }
        }
    }
}

/// What a vote of `caller` for `candidato` in election `id` at time `ahora` does.
pub open spec fn tras_votar(
    s: EstadoSistema,
    caller: AccountId,
    id: u64,
    candidato: AccountId,
    ahora: u64,
) -> (EstadoSistema, Result<(), Error>) {
    if id >= s.elecciones.len() {
        (s, Err(Error::EleccionNoExiste))
    } else {
        let e = s.elecciones[id as int];
        if !activa(e, ahora) {
            (s, Err(Error::EleccionNoActiva))
        } else {
            match usuario_de(s.usuarios, caller) {
                Some(u) => if u.rol != RolUsuario::Votante {
                    (s, Err(Error::UsuarioNoVotante))
                } else {
                    let (f, r) = tras_votar_en_eleccion(e, candidato, u);
                    (
                        if r is Ok {
                            con_eleccion(s, id as int, f)
                        } else {
                            s
                        },
                        r,
                    )
                },
                None => (s, Err(Error::UsuarioNoVotante)),
            }
        }
    }
}

/// What replacing the admin does: only the admin can, and the new record
/// replaces the old one whole.
pub open spec fn tras_set_admin(
    s: EstadoSistema,
    caller: AccountId,
    nombre: String,
    email: String,
    password: String,
    nuevo_admin: AccountId,
) -> (EstadoSistema, Result<(), Error>) {
    if caller != s.admin.id {
        (s, Err(Error::PermisoDenegado))
    } else {
        (EstadoSistema { admin: Admin { id: nuevo_admin, nombre, email, password }, ..s }, Ok(()))
    }
}

/// What setting the reader of internal data does: only the admin can.
pub open spec fn tras_set_id_contrato(s: EstadoSistema, caller: AccountId, id: AccountId) -> (
    EstadoSistema,
    Result<(), Error>,
) {
    if caller != s.admin.id {
        (s, Err(Error::PermisoDenegado))
    } else {
        (EstadoSistema { id_contrato_reporte: id, ..s }, Ok(()))
    }
}

/// What correcting the dates of election `id` does: only the admin can, and
/// both dates must convert before either changes.
pub open spec fn tras_cambiar_fechas(
    s: EstadoSistema,
    caller: AccountId,
    id: u64,
    inicio: Fecha,
    fin: Fecha,
) -> (EstadoSistema, Result<(), Error>) {
    if caller != s.admin.id {
        (s, Err(Error::PermisoDenegado))
    } else if id >= s.elecciones.len() {
        (s, Err(Error::EleccionNoExiste))
    } else {
        match (timestamp_de(inicio), timestamp_de(fin)) {
            (Err(e), _) => (s, Err(e)),
            (Ok(_), Err(e)) => (s, Err(e)),
            (Ok(a), Ok(b)) => (
                con_eleccion(
                    s,
                    id as int,
                    EleccionV { fecha_inicio: a, fecha_fin: b, ..s.elecciones[id as int] },
                ),
                Ok(()),
            ),
        }
    }
}

/// Why a read of election `id`'s internal data by `caller` fails, if it does:
/// only the configured reader may read, and only an election that exists.
pub open spec fn error_consulta(s: EstadoSistema, caller: AccountId, id: u64) -> Option<Error> {
    if caller != s.id_contrato_reporte {
        Some(Error::PermisoDenegado)
    } else if id >= s.elecciones.len() {
        Some(Error::EleccionNoExiste)
    } else {
        None
    }
}

/// Replacing a valid election by a valid one keeps the registry well formed.
proof fn lema_con_eleccion_valida(s: EstadoSistema, i: int, e: EleccionV)
    requires
        estado_valido(s),
        0 <= i < s.elecciones.len(),
        eleccion_valida(e, i),
    ensures
        estado_valido(con_eleccion(s, i, e)),
{
    let t = con_eleccion(s, i, e);
    assert forall|j: int| 0 <= j < t.elecciones.len() implies #[trigger] eleccion_valida(
        t.elecciones[j],
        j,
    ) by {
        if j != i {
            assert(t.elecciones[j] == s.elecciones[j]);
        }
    }
}

/// Adding a user whose identity none has keeps identities distinct.
proof fn lema_agregar_distinto(us: Seq<Usuario>, u: Usuario)
    requires
        ids_distintos(us),
        !existe_usuario(us, u.id),
    ensures
        ids_distintos(us.push(u)),
{
    assert forall|p: int, q: int|
        0 <= p < us.len() + 1 && 0 <= q < us.len() + 1 && p != q implies us.push(u)[p].id
        != us.push(u)[q].id by {
        if p == us.len() {
            assert(us.push(u)[q] == us[q]);
        } else if q == us.len() {
            assert(us.push(u)[p] == us[p]);
        }
    }
}

impl SistemaVotacion {
    pub open spec fn wf(&self) -> bool {
        estado_valido(self@)
    }

    /// A registry whose admin, and reader of its internal data, is `caller`.
    pub fn new(caller: AccountId) -> (r: SistemaVotacion)
        ensures
            es_estado_inicial(r@, caller),
            r.wf(),
    {
        let r = SistemaVotacion {
            id_contrato_reporte: caller,
            admin: Admin {
                id: caller,
                nombre: String::from_str("admin"),
                email: String::from_str("mail.com"),
                password: String::from_str("admin"),
            },
            elecciones: Vec::new(),
            usuarios: Vec::new(),
        };
        r
    }

    /// Registers `caller` as a user, once; the admin cannot register.
    pub fn registrar_usuario(
        &mut self,
        caller: AccountId,
        nombre: String,
        email: String,
        rol: RolUsuario,
    ) -> (r: Result<(), Error>)
        requires
            old(self).wf(),
        ensures
            (final(self)@, r) == tras_registrar_usuario(old(self)@, caller, nombre, email, rol),
            final(self).wf(),
    {
        if caller == self.admin.id {
            return Err(Error::AdminNoPuedeRegistrarse);
        }
        if buscar_usuario(&self.usuarios, &caller).is_some() {
            return Err(Error::UsuarioYaRegistrado);
        }
        let ghost s = self@;
        self.usuarios.push(Usuario { id: caller, nombre, email, rol });
        assert(self@.elecciones =~= s.elecciones);
        Ok(())
    }

    /// Creates an election, open from the start of `fecha_ini` to the start of
    /// `fecha_f`, and returns its id; only the admin can.
    pub fn crear_eleccion(
        &mut self,
        caller: AccountId,
        cargo: String,
        fecha_ini: Fecha,
        fecha_f: Fecha,
    ) -> (r: Result<u64, Error>)
        requires
            old(self).wf(),
        ensures
            (final(self)@, r) == tras_crear_eleccion(old(self)@, caller, cargo, fecha_ini, fecha_f),
            final(self).wf(),
    {
        if self.admin.id != caller {
            return Err(Error::PermisoDenegado);
        }
        let fecha_inicio = match fecha_ini.to_timestamp() {
            Ok(t) => t,
            Err(e) => return Err(e),
        };
        let fecha_fin = match fecha_f.to_timestamp() {
            Ok(t) => t,
            Err(e) => return Err(e),
        };
        let ghost s = self@;
        let id = self.elecciones.len() as u64;
        let eleccion = Eleccion {
            id,
            cargo,
            fecha_inicio,
            fecha_fin,
            candidatos: Vec::new(),
            candidatos_publicos: Vec::new(),
            votantes: Vec::new(),
            votantes_que_votaron: Vec::new(),
        };
        assert(eleccion@ == eleccion_nueva(id, cargo, fecha_inicio, fecha_fin));
        self.elecciones.push(eleccion);
        assert(self@.elecciones =~= s.elecciones.push(eleccion_nueva(id, cargo, fecha_inicio, fecha_fin)));
        Ok(id)
    }

    /// Registers `caller`, a voter, in election `id`, before it opens.
    pub fn registrar_votante_en_eleccion(&mut self, caller: AccountId, id: u64, ahora: u64) -> (r:
        Result<(), Error>)
        requires
            old(self).wf(),
        ensures
            (final(self)@, r) == tras_registrar_votante(old(self)@, caller, id, ahora),
            final(self).wf(),
    {
        if id >= self.elecciones.len() as u64 {
            return Err(Error::EleccionNoExiste);
        }
        let i = id as usize;
        assert(self@.elecciones[i as int] == self.elecciones@[i as int]@);
        if !(ahora < self.elecciones[i].fecha_inicio) {
            return Err(Error::EleccionYaAbierta);
        }
        let k = match buscar_usuario(&self.usuarios, &caller) {
            Some(k) => k,
            None => return Err(Error::UsuarioNoVotante),
        };
        if self.usuarios[k].rol != RolUsuario::Votante {
            return Err(Error::UsuarioNoVotante);
        }
        if buscar_usuario(&self.elecciones[i].votantes, &caller).is_some() {
            return Err(Error::UsuarioYaRegistrado);
        }
        let ghost s = self@;
        let u = self.usuarios[k].copiar();
        self.elecciones[i].votantes.push(u);
        assert(self@.elecciones =~= s.elecciones.update(
            i as int,
            EleccionV { votantes: s.elecciones[i as int].votantes.push(u), ..s.elecciones[i as int] },
        ));
        proof {
            assert(eleccion_valida(s.elecciones[i as int], i as int));
            lema_agregar_distinto(s.elecciones[i as int].votantes, u);
            lema_con_eleccion_valida(s, i as int, self@.elecciones[i as int]);
        }
        Ok(())
    }

    /// Registers `caller`, a candidate, in election `id`, before it opens, with
    /// no votes.
    pub fn registrar_candidato_en_eleccion(&mut self, caller: AccountId, id: u64, ahora: u64) -> (r:
        Result<(), Error>)
        requires
            old(self).wf(),
        ensures
            (final(self)@, r) == tras_registrar_candidato(old(self)@, caller, id, ahora),
            final(self).wf(),
    {
        if id >= self.elecciones.len() as u64 {
            return Err(Error::EleccionNoExiste);
        }
        let i = id as usize;
        assert(self@.elecciones[i as int] == self.elecciones@[i as int]@);
        if !(ahora < self.elecciones[i].fecha_inicio) {
            return Err(Error::EleccionYaAbierta);
        }
        let k = match buscar_usuario(&self.usuarios, &caller) {
            Some(k) => k,
            None => return Err(Error::UsuarioNoCandidato),
        };
        if self.usuarios[k].rol != RolUsuario::Candidato {
            return Err(Error::UsuarioNoCandidato);
        }
        if buscar_candidato(&self.elecciones[i].candidatos, &caller).is_some() {
            return Err(Error::UsuarioYaRegistrado);
        }
        let ghost s = self@;
        let u = self.usuarios[k].copiar();
        self.elecciones[i].candidatos.push((caller, 0));
        self.elecciones[i].candidatos_publicos.push(u);
        let ghost e = s.elecciones[i as int];
        assert(self@.elecciones =~= s.elecciones.update(
            i as int,
            EleccionV {
                candidatos: e.candidatos.push((caller, 0u64)),
                candidatos_publicos: e.candidatos_publicos.push(u),
                ..e
            },
        ));
        proof {
            assert(eleccion_valida(e, i as int));
            lema_suma_entrada_nueva(e.candidatos, caller);
            assert(claves_unicas(e.candidatos.push((caller, 0u64)))) by {
                let t = e.candidatos.push((caller, 0u64));
                assert forall|p: int, q: int|
                    0 <= p < t.len() && 0 <= q < t.len() && p != q implies t[p].0 != t[q].0 by {
                    if p == e.candidatos.len() {
                        assert(t[q] == e.candidatos[q]);
                    } else if q == e.candidatos.len() {
                        assert(t[p] == e.candidatos[p]);
                    }
                }
            }
            lema_con_eleccion_valida(s, i as int, self@.elecciones[i as int]);
        }
        Ok(())
    }

    /// Records a vote of `caller`, a voter, for `candidato` in election `id`
    /// while it is active: one more vote for the candidate and `caller` among
    /// those who voted, both or neither. Any user with the voter role may vote,
    /// whether or not registered in this election; an id is valid below the
    /// number of elections, here as everywhere.
    pub fn votar(&mut self, caller: AccountId, id: u64, candidato: AccountId, ahora: u64) -> (r:
        Result<(), Error>)
        requires
            old(self).wf(),
        ensures
            (final(self)@, r) == tras_votar(old(self)@, caller, id, candidato, ahora),
            final(self).wf(),
    {
        if id >= self.elecciones.len() as u64 {
            return Err(Error::EleccionNoExiste);
        }
        let i = id as usize;
        assert(self@.elecciones[i as int] == self.elecciones@[i as int]@);
        if !(self.elecciones[i].fecha_inicio <= ahora && ahora <= self.elecciones[i].fecha_fin) {
            return Err(Error::EleccionNoActiva);
        }
        let k = match buscar_usuario(&self.usuarios, &caller) {
            Some(k) => k,
            None => return Err(Error::UsuarioNoVotante),
        };
        if self.usuarios[k].rol != RolUsuario::Votante {
            return Err(Error::UsuarioNoVotante);
        }
        let ghost s = self@;
        assert(eleccion_valida(s.elecciones[i as int], i as int));
        let u = self.usuarios[k].copiar();
        let r = self.elecciones[i].votar_en_eleccion(candidato, u);
        proof {
            if r is Ok {
                assert(self@.elecciones =~= s.elecciones.update(i as int, self.elecciones@[i as int]@));
                lema_con_eleccion_valida(s, i as int, self@.elecciones[i as int]);
            } else {
                assert(self@.elecciones =~= s.elecciones);
            }
        }
        r
    }

    /// Replaces the admin; only the admin can.
    pub fn set_admin(
        &mut self,
        caller: AccountId,
        nombre: String,
        email: String,
        password: String,
        nuevo_admin: AccountId,
    ) -> (r: Result<(), Error>)
        requires
            old(self).wf(),
        ensures
            (final(self)@, r) == tras_set_admin(
                old(self)@,
                caller,
                nombre,
                email,
                password,
                nuevo_admin,
            ),
            final(self).wf(),
    {
        if caller != self.admin.id {
            return Err(Error::PermisoDenegado);
        }
        let ghost s = self@;
        self.admin = Admin { id: nuevo_admin, nombre, email, password };
        assert(self@.elecciones =~= s.elecciones);
        Ok(())
    }

    /// Sets the one identity allowed to read internal data; only the admin can.
    pub fn set_id_contrato(&mut self, caller: AccountId, id: AccountId) -> (r: Result<(), Error>)
        requires
            old(self).wf(),
        ensures
            (final(self)@, r) == tras_set_id_contrato(old(self)@, caller, id),
            final(self).wf(),
    {
        if self.admin.id != caller {
            return Err(Error::PermisoDenegado);
        }
        let ghost s = self@;
        self.id_contrato_reporte = id;
        assert(self@.elecciones =~= s.elecciones);
        Ok(())
    }

    /// Corrects the dates of election `id`; only the admin can.
    pub fn cambiar_fechas_eleccion(
        &mut self,
        caller: AccountId,
        id: u64,
        fecha_ini: Fecha,
        fecha_f: Fecha,
    ) -> (r: Result<(), Error>)
        requires
            old(self).wf(),
        ensures
            (final(self)@, r) == tras_cambiar_fechas(old(self)@, caller, id, fecha_ini, fecha_f),
            final(self).wf(),
    {
        if self.admin.id != caller {
            return Err(Error::PermisoDenegado);
        }
        if id >= self.elecciones.len() as u64 {
            return Err(Error::EleccionNoExiste);
        }
        let i = id as usize;
        let inicio = match fecha_ini.to_timestamp() {
            Ok(t) => t,
            Err(e) => return Err(e),
        };
        let fin = match fecha_f.to_timestamp() {
            Ok(t) => t,
            Err(e) => return Err(e),
        };
        let ghost s = self@;
        assert(s.elecciones[i as int] == self.elecciones@[i as int]@);
        self.elecciones[i].fecha_inicio = inicio;
        self.elecciones[i].fecha_fin = fin;
        assert(self@.elecciones =~= s.elecciones.update(
            i as int,
            EleccionV { fecha_inicio: inicio, fecha_fin: fin, ..s.elecciones[i as int] },
        ));
        proof {
            assert(eleccion_valida(s.elecciones[i as int], i as int));
            lema_con_eleccion_valida(s, i as int, self@.elecciones[i as int]);
        }
        Ok(())
    }
}

impl SistemaVotacion {
    /// The phase of election `id` at time `ahora`.
    pub fn fase(&self, id: u64, ahora: u64) -> (r: Result<Fase, Error>)
        ensures
            id >= self@.elecciones.len() ==> r == Err::<Fase, Error>(Error::EleccionNoExiste),
            id < self@.elecciones.len() ==> r == Ok::<Fase, Error>(
                fase_de(self@.elecciones[id as int], ahora),
            ),
    {
        if id >= self.elecciones.len() as u64 {
            return Err(Error::EleccionNoExiste);
        }
        let e = &self.elecciones[id as usize];
        assert(self@.elecciones[id as int] == e@);
        if ahora < e.fecha_inicio {
            Ok(Fase::NoAbierta)
        } else if ahora > e.fecha_fin {
            Ok(Fase::Cerrada)
        } else {
            Ok(Fase::Activa)
        }
    }

    /// Whether election `id` is active at time `ahora`.
    pub fn eleccion_activa(&self, id: u64, ahora: u64) -> (r: Result<bool, Error>)
        ensures
            id >= self@.elecciones.len() ==> r == Err::<bool, Error>(Error::EleccionNoExiste),
            id < self@.elecciones.len() ==> r == Ok::<bool, Error>(
                activa(self@.elecciones[id as int], ahora),
            ),
    {
        if id >= self.elecciones.len() as u64 {
            return Err(Error::EleccionNoExiste);
        }
        let e = &self.elecciones[id as usize];
        assert(self@.elecciones[id as int] == e@);
        Ok(ahora >= e.fecha_inicio && ahora <= e.fecha_fin)
    }

    /// Whether election `id` has closed by time `ahora`.
    pub fn eleccion_cerrada(&self, id: u64, ahora: u64) -> (r: Result<bool, Error>)
        ensures
            id >= self@.elecciones.len() ==> r == Err::<bool, Error>(Error::EleccionNoExiste),
            id < self@.elecciones.len() ==> r == Ok::<bool, Error>(
                cerrada(self@.elecciones[id as int], ahora),
            ),
    {
        if id >= self.elecciones.len() as u64 {
            return Err(Error::EleccionNoExiste);
        }
        let e = &self.elecciones[id as usize];
        assert(self@.elecciones[id as int] == e@);
        Ok(ahora > e.fecha_fin)
    }

    /// Whether election `id` has not opened yet at time `ahora`.
    pub fn eleccion_no_abierta(&self, id: u64, ahora: u64) -> (r: Result<bool, Error>)
        ensures
            id >= self@.elecciones.len() ==> r == Err::<bool, Error>(Error::EleccionNoExiste),
            id < self@.elecciones.len() ==> r == Ok::<bool, Error>(
                no_abierta(self@.elecciones[id as int], ahora),
            ),
    {
        if id >= self.elecciones.len() as u64 {
            return Err(Error::EleccionNoExiste);
        }
        let e = &self.elecciones[id as usize];
        assert(self@.elecciones[id as int] == e@);
        Ok(ahora < e.fecha_inicio)
    }

    /// The public roster of candidates of election `id`, open to anyone.
    pub fn mostrar_candidatos(&self, id: u64) -> (r: Result<Vec<Usuario>, Error>)
        ensures
            id >= self@.elecciones.len() ==> r is Err && r->Err_0 == Error::EleccionNoExiste,
            id < self@.elecciones.len() ==> r is Ok && r->Ok_0@
                == self@.elecciones[id as int].candidatos_publicos,
    {
        if id >= self.elecciones.len() as u64 {
            return Err(Error::EleccionNoExiste);
        }
        let e = &self.elecciones[id as usize];
        assert(self@.elecciones[id as int] == e@);
        Ok(copiar_usuarios(&e.candidatos_publicos))
    }

    /// The number of elections; only for the configured reader.
    pub fn get_tamanio_elecciones(&self, caller: AccountId) -> (r: Result<u64, Error>)
        ensures
            caller != self@.id_contrato_reporte ==> r == Err::<u64, Error>(Error::PermisoDenegado),
            caller == self@.id_contrato_reporte ==> r == Ok::<u64, Error>(
                self@.elecciones.len() as u64,
            ),
            self@.elecciones.len() <= usize::MAX,
    {
        let n = self.elecciones.len();
        if self.id_contrato_reporte != caller {
            return Err(Error::PermisoDenegado);
        }
        Ok(n as u64)
    }

    /// The tally of election `id`: each candidate with its votes; only for the
    /// configured reader.
    pub fn get_candidatos(&self, caller: AccountId, id: u64) -> (r: Result<
        Vec<(AccountId, u64)>,
        Error,
    >)
        ensures
            error_consulta(self@, caller, id) matches Some(e) ==> r is Err && r->Err_0 == e,
            error_consulta(self@, caller, id) is None ==> r is Ok && r->Ok_0@
                == self@.elecciones[id as int].candidatos,
    {
        if self.id_contrato_reporte != caller {
            return Err(Error::PermisoDenegado);
        }
        if id >= self.elecciones.len() as u64 {
            return Err(Error::EleccionNoExiste);
        }
        let e = &self.elecciones[id as usize];
        assert(self@.elecciones[id as int] == e@);
        Ok(copiar_votos(&e.candidatos))
    }

    /// The voters registered in election `id`; only for the configured reader.
    pub fn get_votantes(&self, caller: AccountId, id: u64) -> (r: Result<Vec<Usuario>, Error>)
        ensures
            error_consulta(self@, caller, id) matches Some(e) ==> r is Err && r->Err_0 == e,
            error_consulta(self@, caller, id) is None ==> r is Ok && r->Ok_0@
                == self@.elecciones[id as int].votantes,
    {
        if self.id_contrato_reporte != caller {
            return Err(Error::PermisoDenegado);
        }
        if id >= self.elecciones.len() as u64 {
            return Err(Error::EleccionNoExiste);
        }
        let e = &self.elecciones[id as usize];
        assert(self@.elecciones[id as int] == e@);
        Ok(copiar_usuarios(&e.votantes))
    }

    /// The voters who have voted in election `id`; only for the configured reader.
    pub fn get_votantes_que_votaron(&self, caller: AccountId, id: u64) -> (r: Result<
        Vec<Usuario>,
        Error,
    >)
        ensures
            error_consulta(self@, caller, id) matches Some(e) ==> r is Err && r->Err_0 == e,
            error_consulta(self@, caller, id) is None ==> r is Ok && r->Ok_0@
                == self@.elecciones[id as int].votantes_que_votaron,
    {
        if self.id_contrato_reporte != caller {
            return Err(Error::PermisoDenegado);
        }
        if id >= self.elecciones.len() as u64 {
            return Err(Error::EleccionNoExiste);
        }
        let e = &self.elecciones[id as usize];
        assert(self@.elecciones[id as int] == e@);
        Ok(copiar_usuarios(&e.votantes_que_votaron))
    }

    /// All registered users; only for the configured reader.
    pub fn get_usuarios(&self, caller: AccountId) -> (r: Result<Vec<Usuario>, Error>)
        ensures
            caller != self@.id_contrato_reporte ==> r is Err && r->Err_0 == Error::PermisoDenegado,
            caller == self@.id_contrato_reporte ==> r is Ok && r->Ok_0@ == self@.usuarios,
    {
        if self.id_contrato_reporte != caller {
            return Err(Error::PermisoDenegado);
        }
        Ok(copiar_usuarios(&self.usuarios))
    }

    /// The start of election `id`, in milliseconds; only for the configured reader.
    pub fn get_fecha_inicio(&self, caller: AccountId, id: u64) -> (r: Result<u64, Error>)
        ensures
            error_consulta(self@, caller, id) matches Some(e) ==> r == Err::<u64, Error>(e),
            error_consulta(self@, caller, id) is None ==> r == Ok::<u64, Error>(
                self@.elecciones[id as int].fecha_inicio,
            ),
    {
        if self.id_contrato_reporte != caller {
            return Err(Error::PermisoDenegado);
        }
        if id >= self.elecciones.len() as u64 {
            return Err(Error::EleccionNoExiste);
        }
        let e = &self.elecciones[id as usize];
        assert(self@.elecciones[id as int] == e@);
        Ok(e.fecha_inicio)
    }

    /// The end of election `id`, in milliseconds; only for the configured reader.
    pub fn get_fecha_fin(&self, caller: AccountId, id: u64) -> (r: Result<u64, Error>)
        ensures
            error_consulta(self@, caller, id) matches Some(e) ==> r == Err::<u64, Error>(e),
            error_consulta(self@, caller, id) is None ==> r == Ok::<u64, Error>(
                self@.elecciones[id as int].fecha_fin,
            ),
    {
        if self.id_contrato_reporte != caller {
            return Err(Error::PermisoDenegado);
        }
        if id >= self.elecciones.len() as u64 {
            return Err(Error::EleccionNoExiste);
        }
        let e = &self.elecciones[id as usize];
        assert(self@.elecciones[id as int] == e@);
        Ok(e.fecha_fin)
    }

    /// The office that election `id` fills; only for the configured reader.
    pub fn get_cargo(&self, caller: AccountId, id: u64) -> (r: Result<String, Error>)
        ensures
            error_consulta(self@, caller, id) matches Some(e) ==> r is Err && r->Err_0 == e,
            error_consulta(self@, caller, id) is None ==> r is Ok && r->Ok_0
                == self@.elecciones[id as int].cargo,
    {
        if self.id_contrato_reporte != caller {
            return Err(Error::PermisoDenegado);
        }
        if id >= self.elecciones.len() as u64 {
            return Err(Error::EleccionNoExiste);
        }
        let e = &self.elecciones[id as usize];
        assert(self@.elecciones[id as int] == e@);
        Ok(e.cargo.clone())
    }
}

} // verus!
