use vstd::prelude::*;

use crate::error::Error;

verus! {

/// A calendar day, read as 00:00:00 UTC of that day.
#[derive(Debug, Clone, Copy, PartialEq, Eq, Structural)]
pub struct Fecha {
    pub dias: u32,
    pub mes: u32,
    pub anio: i32,
}

/// The earliest year that a calendar day may have.
pub const ANIO_MIN: i32 = -262143;

/// The latest year that a calendar day may have.
pub const ANIO_MAX: i32 = 262142;

/// Leap years of the proleptic Gregorian calendar.
pub open spec fn es_bisiesto(anio: int) -> bool {
    anio % 4 == 0 && (anio % 100 != 0 || anio % 400 == 0)
}

pub open spec fn dias_del_mes(anio: int, mes: int) -> int {
    if mes == 2 {
        if es_bisiesto(anio) {
            29
        } else {
            28
        }
    } else if mes == 4 || mes == 6 || mes == 9 || mes == 11 {
        30
    } else {
        31
    }
}

/// The day is on the calendar, in a year from `ANIO_MIN` to `ANIO_MAX`.
pub open spec fn es_fecha_valida(anio: int, mes: int, dia: int) -> bool {
    ANIO_MIN <= anio <= ANIO_MAX && 1 <= mes <= 12 && 1 <= dia <= dias_del_mes(anio, mes)
}

/// Days from 1 January of year 0 to 1 January of `anio` (negative before year 0):
/// 365 a year, and one more for each leap year in between.
pub open spec fn dias_hasta_anio(anio: int) -> int {
    365 * anio + (anio + 3) / 4 - (anio + 99) / 100 + (anio + 399) / 400
}

/// Days from 1 January to the first day of `mes` in `anio`.
pub open spec fn dias_hasta_mes(anio: int, mes: int) -> int
    decreases mes,
{
    if mes <= 1 {
        0
    } else {
        dias_hasta_mes(anio, mes - 1) + dias_del_mes(anio, mes - 1)
    }
}

/// Days from 1970-01-01 to the given day.
pub open spec fn dias_desde_epoca(anio: int, mes: int, dia: int) -> int {
    dias_hasta_anio(anio) + dias_hasta_mes(anio, mes) + dia - 1 - dias_hasta_anio(1970)
}

/// Seconds from 1970-01-01 00:00:00 UTC to midnight UTC that starts the given day.
pub open spec fn segundos_medianoche(anio: int, mes: int, dia: int) -> int {
    dias_desde_epoca(anio, mes, dia) * 86400
}

/// What converting a day to milliseconds gives: an invalid day is refused, and a
/// day before 1970, or one whose milliseconds do not fit in a `u64`, overflows.
pub open spec fn timestamp_de(f: Fecha) -> Result<u64, Error> {
    let s = segundos_medianoche(f.anio as int, f.mes as int, f.dias as int);
    if !es_fecha_valida(f.anio as int, f.mes as int, f.dias as int) {
        Err(Error::FechaInvalida)
    } else if s < 0 || s * 1000 > u64::MAX {
        Err(Error::Overflow)
    } else {
        Ok((s * 1000) as u64)
    }
}

/// Relies on chrono: `NaiveDate::from_ymd_opt` (`None` for a year outside the range
/// it represents, or a month or day not on the calendar), `and_hms_opt(0, 0, 0)`,
/// and `timestamp` of the UTC date-time (seconds since 1970-01-01 00:00:00 UTC).
#[verifier::external_body]
fn segundos_desde_epoca(anio: i32, mes: u32, dia: u32) -> (r: Option<i64>)
    ensures
        r is Some <==> es_fecha_valida(anio as int, mes as int, dia as int),
        r matches Some(s) ==> s == segundos_medianoche(anio as int, mes as int, dia as int),
{
    match chrono::NaiveDate::from_ymd_opt(anio, mes, dia) {
        Some(fecha) => match fecha.and_hms_opt(0, 0, 0) {
            Some(medianoche) => Some(medianoche.and_utc().timestamp()),
            None => None,
        },
        None => None,
    }
}

impl Fecha {
    /// Milliseconds from 1970-01-01 00:00:00 UTC to the start of this day.
    pub fn to_timestamp(&self) -> (r: Result<u64, Error>)
        ensures
            r == timestamp_de(*self),
    {
        match segundos_desde_epoca(self.anio, self.mes, self.dias) {
            None => Err(Error::FechaInvalida),
            Some(s) => {
                if s < 0 {
                    return Err(Error::Overflow);
                }
                let s = s as u64;
                match s.checked_mul(1000) {
                    Some(ms) => Ok(ms),
                    None => Err(Error::Overflow),
                }
            },
        }
    }
}

} // verus!
