use vstd::prelude::*;

use crate::cuenta::AccountId;

verus! {

#[derive(Debug, Clone, Copy, PartialEq, Eq, Structural)]
pub enum RolUsuario {
    Candidato,
    Votante,
}

/// A registered person: who they are, how to reach them, and the part they take.
#[derive(Debug, Clone, PartialEq, Eq)]
pub struct Usuario {
    pub id: AccountId,
    pub nombre: String,
    pub email: String,
    pub rol: RolUsuario,
}

impl Usuario {
    pub fn new(id: AccountId, nombre: String, email: String, rol: RolUsuario) -> (r: Usuario)
        ensures
            r == (Usuario { id, nombre, email, rol }),
    {
        Usuario { id, nombre, email, rol }
    }

    /// A copy of this record, field for field.
    pub fn copiar(&self) -> (r: Usuario)
        ensures
            r == *self,
    {
        Usuario { id: self.id, nombre: self.nombre.clone(), email: self.email.clone(), rol: self.rol }
    }
}

/// The single privileged account.
pub struct Admin {
    pub id: AccountId,
    pub nombre: String,
    pub email: String,
    pub password: String,
}

/// Some user in `us` has the identity `id`.
pub open spec fn existe_usuario(us: Seq<Usuario>, id: AccountId) -> bool {
    exists|i: int| 0 <= i < us.len() && us[i].id == id
}

/// The user in `us` with the identity `id`, if there is one.
pub open spec fn usuario_de(us: Seq<Usuario>, id: AccountId) -> Option<Usuario> {
    if existe_usuario(us, id) {
        Some(us[choose|i: int| 0 <= i < us.len() && us[i].id == id])
    } else {
        None
    }
}

/// No two users in `us` share an identity.
pub open spec fn ids_distintos(us: Seq<Usuario>) -> bool {
    forall|i: int, j: int| 0 <= i < us.len() && 0 <= j < us.len() && i != j ==> us[i].id != us[j].id
}

/// The position in `us` of a user with the identity `id`, if any.
pub fn buscar_usuario(us: &Vec<Usuario>, id: &AccountId) -> (r: Option<usize>)
    ensures
        r is None <==> !existe_usuario(us@, *id),
        r matches Some(i) ==> i < us@.len() && us@[i as int].id == *id,
        r matches Some(i) ==> (ids_distintos(us@) ==> usuario_de(us@, *id) == Some(us@[i as int])),
{
    let mut i: usize = 0;
    while i < us.len()
        invariant
            i <= us@.len(),
            forall|j: int| 0 <= j < i ==> us@[j].id != *id,
        decreases us@.len() - i,
    {
        if us[i].id == *id {
            return Some(i);
        }
        i = i + 1;
    }
    None
}

/// A copy of a list of users, record for record.
pub fn copiar_usuarios(us: &Vec<Usuario>) -> (r: Vec<Usuario>)
    ensures
        r@ == us@,
{
    let mut r: Vec<Usuario> = Vec::new();
    let mut i: usize = 0;
    while i < us.len()
        invariant
            i <= us@.len(),
            r@ == us@.subrange(0, i as int),
        decreases us@.len() - i,
    {
        r.push(us[i].copiar());
        i = i + 1;
        assert(r@ =~= us@.subrange(0, i as int));
    }
    assert(us@.subrange(0, us@.len() as int) =~= us@);
    r
}

} // verus!
