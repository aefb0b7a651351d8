//! Elections with time-gated phases, an access-gated query surface and
//! reports derived from it, with every operation proved against its contract.

pub mod cuenta;
pub mod eleccion;
pub mod error;
pub mod fecha;
pub mod leyes;
pub mod reporte;
pub mod sistema;
pub mod usuario;

pub use cuenta::AccountId;
pub use eleccion::Fase;
pub use error::Error;
pub use fecha::Fecha;
pub use reporte::{
    calcular_participacion, calcular_resultado, ordenar_resultados, Reporte, ReporteParticipacion,
    ReporteRegistroVotantes, ReporteResultado,
};
pub use sistema::SistemaVotacion;
pub use usuario::{RolUsuario, Usuario};
