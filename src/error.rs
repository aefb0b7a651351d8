use vstd::prelude::*;

verus! {

/// Every way an operation of the registry or of the reports can fail.
#[derive(Debug, Clone, Copy, PartialEq, Eq, Structural)]
pub enum Error {
    PermisoDenegado,
    EleccionNoExiste,
    /// Registration asked for once the election has opened.
    EleccionYaAbierta,
    /// A report asked for before the election has closed.
    EleccionAbierta,
    EleccionNoActiva,
    UsuarioNoVotante,
    UsuarioYaRegistrado,
    UsuarioYaVoto,
    AdminNoPuedeRegistrarse,
    CandidatoNoExiste,
    UsuarioNoCandidato,
    FechaInvalida,
    Overflow,
}

impl Error {
    /// The message shown to a person for this error.
    pub fn mensaje(&self) -> (r: &'static str)
        ensures
            r@ == mensaje_de(*self)@,
    {
        match self {
            Error::PermisoDenegado => "Permiso denegado",
            Error::EleccionNoExiste => "La elección no existe",
            Error::EleccionYaAbierta => "La elección ya está abierta",
            Error::EleccionAbierta => "La elección está abierta",
            Error::EleccionNoActiva => "La elección no está activa",
            Error::UsuarioNoVotante => "El usuario no es votante",
            Error::UsuarioYaRegistrado => "El usuario ya está registrado",
            Error::UsuarioYaVoto => "El usuario ya votó",
            Error::AdminNoPuedeRegistrarse => "El admin no puede registrarse",
            Error::CandidatoNoExiste => "El candidato no existe",
            Error::UsuarioNoCandidato => "El usuario no es candidato",
            Error::FechaInvalida => "Fecha inválida",
            Error::Overflow => "Overflow",
        }
    }
}

/// The message of each error.
pub open spec fn mensaje_de(e: Error) -> &'static str {
    match e {
        Error::PermisoDenegado => "Permiso denegado",
        Error::EleccionNoExiste => "La elección no existe",
        Error::EleccionYaAbierta => "La elección ya está abierta",
        Error::EleccionAbierta => "La elección está abierta",
        Error::EleccionNoActiva => "La elección no está activa",
        Error::UsuarioNoVotante => "El usuario no es votante",
        Error::UsuarioYaRegistrado => "El usuario ya está registrado",
        Error::UsuarioYaVoto => "El usuario ya votó",
        Error::AdminNoPuedeRegistrarse => "El admin no puede registrarse",
        Error::CandidatoNoExiste => "El candidato no existe",
        Error::UsuarioNoCandidato => "El usuario no es candidato",
        Error::FechaInvalida => "Fecha inválida",
        Error::Overflow => "Overflow",
    }
}

} // verus!
