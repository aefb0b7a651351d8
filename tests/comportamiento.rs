use votacion::{
    calcular_participacion, calcular_resultado, ordenar_resultados, AccountId, Error, Fase, Fecha,
    Reporte, ReporteParticipacion, RolUsuario, SistemaVotacion,
};

const INICIO_2024: u64 = 1704067200000;
const INICIO_2025: u64 = 1735689600000;

fn cuenta(b: u8) -> AccountId {
    AccountId::from([b; 32])
}

fn fecha(dias: u32, mes: u32, anio: i32) -> Fecha {
    Fecha { dias, mes, anio }
}

/// A registry run by 0x01, read by 0x07, with one election over 2024, voter
/// 0x02 and candidate 0x03 registered in it.
fn sistema_con_eleccion() -> SistemaVotacion {
    let admin = cuenta(1);
    let mut s = SistemaVotacion::new(admin);
    s.set_id_contrato(admin, cuenta(7)).unwrap();
    s.crear_eleccion(admin, "presidente".to_string(), fecha(1, 1, 2024), fecha(1, 1, 2025))
        .unwrap();
    s.registrar_usuario(cuenta(2), "V".to_string(), "v@x".to_string(), RolUsuario::Votante)
        .unwrap();
    s.registrar_usuario(cuenta(3), "C".to_string(), "c@x".to_string(), RolUsuario::Candidato)
        .unwrap();
    s.registrar_votante_en_eleccion(cuenta(2), 0, 0).unwrap();
    s.registrar_candidato_en_eleccion(cuenta(3), 0, 0).unwrap();
    s
}

#[test]
fn usuarios_sin_identidad_repetida() {
    let admin = cuenta(1);
    let mut s = SistemaVotacion::new(admin);
    assert_eq!(
        s.registrar_usuario(admin, "a".to_string(), "".to_string(), RolUsuario::Votante),
        Err(Error::AdminNoPuedeRegistrarse)
    );
    assert_eq!(s.registrar_usuario(cuenta(2), "a".to_string(), "".to_string(), RolUsuario::Votante), Ok(()));
    assert_eq!(
        s.registrar_usuario(cuenta(2), "b".to_string(), "".to_string(), RolUsuario::Candidato),
        Err(Error::UsuarioYaRegistrado)
    );
    assert_eq!(s.registrar_usuario(cuenta(3), "c".to_string(), "".to_string(), RolUsuario::Candidato), Ok(()));
    let usuarios = s.get_usuarios(admin).unwrap();
    assert_eq!(usuarios.len(), 2);
    assert_eq!(usuarios[0].id, cuenta(2));
    assert_eq!(usuarios[0].nombre, "a");
    assert_eq!(usuarios[1].id, cuenta(3));
}

#[test]
fn fases_en_los_bordes() {
    let s = sistema_con_eleccion();
    assert_eq!(s.fase(0, INICIO_2024 - 1), Ok(Fase::NoAbierta));
    assert_eq!(s.fase(0, INICIO_2024), Ok(Fase::Activa));
    assert_eq!(s.fase(0, INICIO_2025), Ok(Fase::Activa));
    assert_eq!(s.fase(0, INICIO_2025 + 1), Ok(Fase::Cerrada));
    assert_eq!(s.fase(1, 0), Err(Error::EleccionNoExiste));
    assert_eq!(s.eleccion_activa(0, INICIO_2025), Ok(true));
    assert_eq!(s.eleccion_cerrada(0, INICIO_2025), Ok(false));
    assert_eq!(s.eleccion_no_abierta(0, INICIO_2024), Ok(false));
}

#[test]
fn ids_consecutivos() {
    let admin = cuenta(1);
    let mut s = SistemaVotacion::new(admin);
    assert_eq!(s.crear_eleccion(admin, "a".to_string(), fecha(1, 1, 2024), fecha(1, 1, 2025)), Ok(0));
    assert_eq!(
        s.crear_eleccion(cuenta(2), "b".to_string(), fecha(1, 1, 2024), fecha(1, 1, 2025)),
        Err(Error::PermisoDenegado)
    );
    assert_eq!(
        s.crear_eleccion(admin, "b".to_string(), fecha(30, 2, 2024), fecha(1, 1, 2025)),
        Err(Error::FechaInvalida)
    );
    assert_eq!(s.crear_eleccion(admin, "c".to_string(), fecha(1, 1, 2024), fecha(1, 1, 2025)), Ok(1));
    assert_eq!(s.crear_eleccion(admin, "d".to_string(), fecha(1, 1, 2024), fecha(1, 1, 2025)), Ok(2));
    assert_eq!(s.get_tamanio_elecciones(admin), Ok(3));
    assert_eq!(s.get_cargo(admin, 1).unwrap(), "c");
}

#[test]
fn un_solo_voto_por_votante() {
    let mut s = sistema_con_eleccion();
    let ahora = INICIO_2024 + 1;
    assert_eq!(s.votar(cuenta(2), 0, cuenta(3), ahora), Ok(()));
    assert_eq!(s.votar(cuenta(2), 0, cuenta(3), ahora), Err(Error::UsuarioYaVoto));
    let votos = s.get_candidatos(cuenta(7), 0).unwrap();
    let suma: u64 = votos.iter().map(|v| v.1).sum();
    assert_eq!(suma, 1);
    assert_eq!(s.get_votantes_que_votaron(cuenta(7), 0).unwrap().len(), 1);
}

#[test]
fn errores_al_votar() {
    let mut s = sistema_con_eleccion();
    assert_eq!(s.votar(cuenta(2), 0, cuenta(3), 0), Err(Error::EleccionNoActiva));
    assert_eq!(s.votar(cuenta(2), 0, cuenta(3), INICIO_2025 + 1), Err(Error::EleccionNoActiva));
    assert_eq!(s.votar(cuenta(2), 4, cuenta(3), INICIO_2024), Err(Error::EleccionNoExiste));
    assert_eq!(s.votar(cuenta(3), 0, cuenta(3), INICIO_2024), Err(Error::UsuarioNoVotante));
    assert_eq!(s.votar(cuenta(1), 0, cuenta(3), INICIO_2024), Err(Error::UsuarioNoVotante));
    assert_eq!(s.votar(cuenta(2), 0, cuenta(2), INICIO_2024), Err(Error::CandidatoNoExiste));
    assert_eq!(s.get_candidatos(cuenta(7), 0).unwrap(), vec![(cuenta(3), 0)]);
}

#[test]
fn lecturas_solo_para_el_lector() {
    let s = sistema_con_eleccion();
    let intruso = cuenta(1);
    for id in [0u64, 5u64] {
        assert_eq!(s.get_candidatos(intruso, id), Err(Error::PermisoDenegado));
        assert_eq!(s.get_votantes(intruso, id), Err(Error::PermisoDenegado));
        assert_eq!(s.get_votantes_que_votaron(intruso, id), Err(Error::PermisoDenegado));
        assert_eq!(s.get_fecha_inicio(intruso, id), Err(Error::PermisoDenegado));
        assert_eq!(s.get_fecha_fin(intruso, id), Err(Error::PermisoDenegado));
        assert_eq!(s.get_cargo(intruso, id), Err(Error::PermisoDenegado));
    }
    assert_eq!(s.get_tamanio_elecciones(intruso), Err(Error::PermisoDenegado));
    assert_eq!(s.get_usuarios(intruso), Err(Error::PermisoDenegado));
    assert_eq!(s.get_fecha_inicio(cuenta(7), 5), Err(Error::EleccionNoExiste));
    let reporte = Reporte::new(intruso);
    assert_eq!(reporte.generar_reporte_participacion(&s, 0, INICIO_2025 + 1), Err(Error::PermisoDenegado));
}

#[test]
fn ranking_con_empates() {
    let votos = vec![(cuenta(3), 5), (cuenta(1), 5), (cuenta(2), 7), (cuenta(4), 0)];
    assert_eq!(
        ordenar_resultados(&votos),
        vec![(cuenta(2), 7), (cuenta(1), 5), (cuenta(3), 5), (cuenta(4), 0)]
    );
    let mut alto = [0u8; 32];
    alto[31] = 1;
    let mut bajo = [0u8; 32];
    bajo[0] = 1;
    let votos = vec![(AccountId::from(bajo), 2), (AccountId::from(alto), 2)];
    assert_eq!(
        ordenar_resultados(&votos),
        vec![(AccountId::from(alto), 2), (AccountId::from(bajo), 2)]
    );
    assert_eq!(ordenar_resultados(&Vec::new()), Vec::new());
}

#[test]
fn resultado_diez_cinco_tres() {
    let votos = vec![(cuenta(0xC), 3), (cuenta(0xA), 10), (cuenta(0xB), 5)];
    let r = calcular_resultado(0, 10, 20, 21, &votos).unwrap();
    assert_eq!(r.resultados_ordenados, vec![(cuenta(0xA), 10), (cuenta(0xB), 5), (cuenta(0xC), 3)]);
    assert_eq!(calcular_resultado(0, 10, 20, 20, &votos).unwrap_err(), Error::EleccionAbierta);
    assert_eq!(calcular_resultado(0, 10, 20, 9, &votos).unwrap_err(), Error::EleccionNoActiva);
}

#[test]
fn aritmetica_de_participacion() {
    let completa = ReporteParticipacion { nro_eleccion: 0, cantidad_votos_emitidos: 2, porcentaje_participacion: 100 };
    assert_eq!(calcular_participacion(0, 10, 20, 21, 2, 2), Ok(completa));
    assert_eq!(calcular_participacion(0, 10, 20, 21, 0, 0), Err(Error::Overflow));
    assert_eq!(calcular_participacion(0, 10, 20, 21, 1, 3).unwrap().porcentaje_participacion, 33);
    assert_eq!(calcular_participacion(0, 10, 20, 21, 2, 3).unwrap().porcentaje_participacion, 66);
    assert_eq!(calcular_participacion(0, 10, 20, 21, u64::MAX / 50, 1), Err(Error::Overflow));
    assert_eq!(calcular_participacion(0, 10, 20, 20, 2, 2), Err(Error::EleccionAbierta));
    assert_eq!(calcular_participacion(0, 10, 20, 9, 2, 2), Err(Error::EleccionNoActiva));
}

#[test]
fn registro_de_votante_antes_de_abrir() {
    let mut s = sistema_con_eleccion();
    s.registrar_usuario(cuenta(5), "W".to_string(), "".to_string(), RolUsuario::Votante).unwrap();
    assert_eq!(s.registrar_votante_en_eleccion(cuenta(5), 0, INICIO_2024), Err(Error::EleccionYaAbierta));
    assert_eq!(s.registrar_votante_en_eleccion(cuenta(5), 0, INICIO_2025 + 1), Err(Error::EleccionYaAbierta));
    assert_eq!(s.registrar_votante_en_eleccion(cuenta(5), 0, INICIO_2024 - 1), Ok(()));
    assert_eq!(s.registrar_votante_en_eleccion(cuenta(5), 0, INICIO_2024 - 1), Err(Error::UsuarioYaRegistrado));
    assert_eq!(s.registrar_votante_en_eleccion(cuenta(3), 0, 0), Err(Error::UsuarioNoVotante));
    assert_eq!(s.registrar_votante_en_eleccion(cuenta(9), 0, 0), Err(Error::UsuarioNoVotante));
    assert_eq!(s.registrar_votante_en_eleccion(cuenta(5), 3, 0), Err(Error::EleccionNoExiste));
    assert_eq!(s.get_votantes(cuenta(7), 0).unwrap().len(), 2);
}

#[test]
fn registro_de_candidato() {
    let mut s = sistema_con_eleccion();
    assert_eq!(s.registrar_candidato_en_eleccion(cuenta(2), 0, 0), Err(Error::UsuarioNoCandidato));
    assert_eq!(s.registrar_candidato_en_eleccion(cuenta(3), 0, 0), Err(Error::UsuarioYaRegistrado));
    assert_eq!(s.registrar_candidato_en_eleccion(cuenta(3), 0, INICIO_2024), Err(Error::EleccionYaAbierta));
    let publicos = s.mostrar_candidatos(0).unwrap();
    assert_eq!(publicos.len(), 1);
    assert_eq!(publicos[0].nombre, "C");
    assert_eq!(s.mostrar_candidatos(1).unwrap_err(), Error::EleccionNoExiste);
}

#[test]
fn escenario_completo() {
    let admin = cuenta(1);
    let v = cuenta(2);
    let c = cuenta(3);
    let lector = cuenta(7);
    let mut s = SistemaVotacion::new(admin);
    s.set_id_contrato(admin, lector).unwrap();
    assert_eq!(s.crear_eleccion(admin, "cargo".to_string(), fecha(1, 1, 2024), fecha(1, 1, 2025)), Ok(0));
    s.registrar_usuario(v, "V".to_string(), "".to_string(), RolUsuario::Votante).unwrap();
    s.registrar_usuario(c, "C".to_string(), "".to_string(), RolUsuario::Candidato).unwrap();
    let antes = 1672531200000;
    s.registrar_candidato_en_eleccion(c, 0, antes).unwrap();
    s.registrar_votante_en_eleccion(v, 0, antes).unwrap();
    s.votar(v, 0, c, 1706745600000).unwrap();
    let despues = INICIO_2025 + 1;
    let reporte = Reporte::new(lector);
    assert_eq!(
        reporte.generar_reporte_participacion(&s, 0, despues),
        Ok(ReporteParticipacion { nro_eleccion: 0, cantidad_votos_emitidos: 1, porcentaje_participacion: 100 })
    );
    let resultado = reporte.generar_reporte_resultado(&s, 0, despues).unwrap();
    assert_eq!(resultado.nro_eleccion, 0);
    assert_eq!(resultado.resultados_ordenados, vec![(c, 1)]);
    assert_eq!(reporte.generar_reporte_resultado(&s, 0, INICIO_2025).unwrap_err(), Error::EleccionAbierta);
    assert_eq!(reporte.generar_reporte_resultado(&s, 1, despues).unwrap_err(), Error::EleccionNoExiste);
    assert_eq!(reporte.get_tamanio_elecciones(&s), Ok(1));
    assert_eq!(reporte.get_fecha_inicio(&s, 0), Ok(INICIO_2024));
    assert_eq!(reporte.get_fecha_fin(&s, 0), Ok(INICIO_2025));
    assert_eq!(reporte.get_votantes(&s, 0).unwrap().len(), 1);
    assert_eq!(reporte.get_votantes_que_votaron(&s, 0).unwrap()[0].id, v);
    assert_eq!(reporte.get_candidatos(&s, 0), Ok(vec![(c, 1)]));
    assert_eq!(reporte.generar_reporte_registro_votantes(&s, 0).unwrap().votantes[0].nombre, "V");
}

#[test]
fn fechas_del_calendario() {
    assert_eq!(fecha(29, 2, 2024).to_timestamp(), Ok(1709164800000));
    assert_eq!(fecha(29, 2, 2000).to_timestamp(), Ok(951782400000));
    assert_eq!(fecha(29, 2, 2023).to_timestamp(), Err(Error::FechaInvalida));
    assert_eq!(fecha(29, 2, 1900).to_timestamp(), Err(Error::FechaInvalida));
    assert_eq!(fecha(1, 13, 2024).to_timestamp(), Err(Error::FechaInvalida));
    assert_eq!(fecha(0, 1, 2024).to_timestamp(), Err(Error::FechaInvalida));
    assert_eq!(fecha(31, 4, 2024).to_timestamp(), Err(Error::FechaInvalida));
    assert_eq!(fecha(1, 1, 262143).to_timestamp(), Err(Error::FechaInvalida));
    assert_eq!(fecha(1, 1, 1970).to_timestamp(), Ok(0));
    assert_eq!(fecha(31, 12, 1969).to_timestamp(), Err(Error::Overflow));
    assert_eq!(fecha(31, 12, 262142).to_timestamp(), Ok(8210266790400000));
    assert_eq!(fecha(1, 7, 2024).to_timestamp(), Ok(1719792000000));
}

#[test]
fn correccion_de_fechas() {
    let admin = cuenta(1);
    let mut s = sistema_con_eleccion();
    assert_eq!(s.cambiar_fechas_eleccion(cuenta(2), 0, fecha(1, 1, 2030), fecha(1, 1, 2031)), Err(Error::PermisoDenegado));
    assert_eq!(s.cambiar_fechas_eleccion(admin, 3, fecha(1, 1, 2030), fecha(1, 1, 2031)), Err(Error::EleccionNoExiste));
    assert_eq!(s.cambiar_fechas_eleccion(admin, 0, fecha(1, 1, 2030), fecha(32, 1, 2031)), Err(Error::FechaInvalida));
    assert_eq!(s.get_fecha_inicio(cuenta(7), 0), Ok(INICIO_2024));
    assert_eq!(s.cambiar_fechas_eleccion(admin, 0, fecha(1, 1, 2030), fecha(1, 1, 2031)), Ok(()));
    assert_eq!(s.get_fecha_inicio(cuenta(7), 0), Ok(1893456000000));
    assert_eq!(s.get_fecha_fin(cuenta(7), 0), Ok(1924992000000));
}

#[test]
fn cambio_de_admin_y_de_lector() {
    let admin = cuenta(1);
    let mut s = SistemaVotacion::new(admin);
    assert_eq!(s.get_tamanio_elecciones(admin), Ok(0));
    assert_eq!(s.set_id_contrato(cuenta(2), cuenta(2)), Err(Error::PermisoDenegado));
    assert_eq!(s.set_id_contrato(admin, cuenta(7)), Ok(()));
    assert_eq!(s.get_tamanio_elecciones(admin), Err(Error::PermisoDenegado));
    assert_eq!(s.set_admin(admin, "n".to_string(), "e".to_string(), "p".to_string(), cuenta(4)), Ok(()));
    assert_eq!(
        s.crear_eleccion(admin, "a".to_string(), fecha(1, 1, 2024), fecha(1, 1, 2025)),
        Err(Error::PermisoDenegado)
    );
    assert_eq!(s.crear_eleccion(cuenta(4), "a".to_string(), fecha(1, 1, 2024), fecha(1, 1, 2025)), Ok(0));
}

#[test]
fn mensajes_de_los_errores_nuevos() {
    assert_eq!(Error::EleccionYaAbierta.mensaje(), "La elección ya está abierta");
    assert_eq!(Error::UsuarioYaVoto.mensaje(), "El usuario ya votó");
}
