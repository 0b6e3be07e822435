use migrador::services::migrar::{
    inicio_migracion, paso_migracion, AccionMigracion, EstadoMigracion, EventoMigracion, FaseMigracion,
};

fn correr(eventos: &[EventoMigracion]) -> (EstadoMigracion, Vec<AccionMigracion>) {
    let mut s = inicio_migracion();
    let mut acciones = Vec::new();
    for e in eventos {
        let (s1, a) = paso_migracion(s, *e);
        s = s1;
        acciones.push(a);
    }
    (s, acciones)
}

use migrador::services::migrar::AccionMigracion::{
    Abortar, EscribirSeparacion, Finalizar, InsertarDocumento, MarcarMigrado, Ninguna, RegistrarId,
};
use migrador::services::migrar::EventoMigracion::{Fallo, Hecho, Preparada};

#[test]
fn corrida_completa_con_dos_filas() {
    let (s, acciones) = correr(&[Preparada { conteo: 2, filas: 2 }, Hecho, Hecho, Hecho, Hecho, Hecho, Hecho, Hecho]);
    assert_eq!(s.fase, FaseMigracion::Terminada);
    assert_eq!(
        acciones,
        vec![
            InsertarDocumento(0),
            MarcarMigrado(0),
            RegistrarId(0),
            InsertarDocumento(1),
            MarcarMigrado(1),
            RegistrarId(1),
            EscribirSeparacion,
            Finalizar,
        ]
    );
}

#[test]
fn sin_filas_ni_conteo_termina_sin_separador() {
    let (s, acciones) = correr(&[Preparada { conteo: 0, filas: 0 }]);
    assert_eq!(s.fase, FaseMigracion::Terminada);
    assert_eq!(acciones, vec![Finalizar]);
}

#[test]
fn conteo_positivo_sin_filas_escribe_separador() {
    let (s, acciones) = correr(&[Preparada { conteo: 3, filas: 0 }, Hecho]);
    assert_eq!(s.fase, FaseMigracion::Terminada);
    assert_eq!(acciones, vec![EscribirSeparacion, Finalizar]);
}

#[test]
fn filas_sin_conteo_no_escriben_separador() {
    let (s, acciones) = correr(&[Preparada { conteo: 0, filas: 1 }, Hecho, Hecho, Hecho]);
    assert_eq!(s.fase, FaseMigracion::Terminada);
    assert_eq!(acciones, vec![InsertarDocumento(0), MarcarMigrado(0), RegistrarId(0), Finalizar]);
}

#[test]
fn fallo_al_insertar_no_marca_la_fila() {
    let (s, acciones) = correr(&[Preparada { conteo: 2, filas: 2 }, Hecho, Hecho, Hecho, Fallo, Hecho, Hecho]);
    assert_eq!(s.fase, FaseMigracion::Fallida);
    assert_eq!(
        acciones,
        vec![InsertarDocumento(0), MarcarMigrado(0), RegistrarId(0), InsertarDocumento(1), Abortar, Ninguna, Ninguna]
    );
}

#[test]
fn fallo_al_preparar() {
    let (s, acciones) = correr(&[Fallo, Preparada { conteo: 1, filas: 1 }]);
    assert_eq!(s.fase, FaseMigracion::Fallida);
    assert_eq!(acciones, vec![Abortar, Ninguna]);
}

#[test]
fn evento_fuera_de_lugar_no_hace_nada() {
    let (s, acciones) = correr(&[Hecho, Preparada { conteo: 1, filas: 1 }, Preparada { conteo: 5, filas: 5 }]);
    assert_eq!(s.fase, FaseMigracion::Insertando);
    assert_eq!(s.filas, 1);
    assert_eq!(acciones, vec![Ninguna, InsertarDocumento(0), Ninguna]);
}

#[test]
fn marcas_siempre_tras_insercion() {
    let (_, acciones) = correr(&[
        Preparada { conteo: 3, filas: 3 },
        Hecho,
        Preparada { conteo: 1, filas: 1 },
        Hecho,
        Hecho,
        Hecho,
        Hecho,
        Hecho,
        Hecho,
        Fallo,
    ]);
    let mut ultima_marca: Option<usize> = None;
    for (k, a) in acciones.iter().enumerate() {
        if let MarcarMigrado(i) = a {
            assert!(acciones[..k].contains(&InsertarDocumento(*i)));
            if let Some(u) = ultima_marca {
                assert!(u < *i);
            }
            ultima_marca = Some(*i);
        }
    }
    assert_eq!(ultima_marca, Some(2));
    let mut ultimo_registro: Option<usize> = None;
    for (k, a) in acciones.iter().enumerate() {
        if let RegistrarId(i) = a {
            assert!(acciones[..k].contains(&MarcarMigrado(*i)));
            assert!(acciones[..k].contains(&InsertarDocumento(*i)));
            if let Some(u) = ultimo_registro {
                assert!(u < *i);
            }
            ultimo_registro = Some(*i);
        }
    }
    assert_eq!(ultimo_registro, Some(1));
}

#[test]
fn fallo_al_marcar_no_registra_la_fila() {
    let (s, acciones) = correr(&[Preparada { conteo: 1, filas: 1 }, Hecho, Fallo]);
    assert_eq!(s.fase, FaseMigracion::Fallida);
    assert_eq!(acciones, vec![InsertarDocumento(0), MarcarMigrado(0), Abortar]);
}
