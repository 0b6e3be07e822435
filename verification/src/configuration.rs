use vstd::prelude::*;
use vstd::string::*;

verus! {

/// A configuration problem. Every such problem is a "not found" condition:
/// a missing `.env` file or a variable that is not defined.
pub struct ErrorConfiguracion {
    pub mensaje: String,
}

/// Message given when no `.env` file exists.
pub open spec fn mensaje_sin_env() -> Seq<char> {
    "El archivo .env no existe"@
}

/// Message given when `mysql_url` is not defined.
pub open spec fn mensaje_sin_mysql() -> Seq<char> {
    "La variable mysql_url no está definida en .env"@
}

/// Message given when `mongodb_url` is not defined.
pub open spec fn mensaje_sin_mongodb() -> Seq<char> {
    "La variable mongodb_url  no está definida en .env"@
}

/// Message given when the variable `nombre` is not defined.
pub open spec fn mensaje_variable_faltante(nombre: Seq<char>) -> Seq<char> {
    "La variable "@ + nombre + " no está definida en .env"@
}

/// Outcome of the configuration check: `None` when the configuration is
/// complete, otherwise the message of the first problem found, checked in the
/// order: `.env` file, `mysql_url`, `mongodb_url`.
pub open spec fn validacion(existe_env: bool, hay_mysql: bool, hay_mongodb: bool) -> Option<Seq<char>> {
    if !existe_env {
        Some(mensaje_sin_env())
    } else if !hay_mysql {
        Some(mensaje_sin_mysql())
    } else if !hay_mongodb {
        Some(mensaje_sin_mongodb())
    } else {
        None
    }
}

/// Outcome of looking a variable up: its value when it is defined, otherwise
/// the message naming it.
pub open spec fn obtencion(nombre: Seq<char>, valor: Option<Seq<char>>) -> Result<Seq<char>, Seq<char>> {
    match valor {
        Some(v) => Ok(v),
        None => Err(mensaje_variable_faltante(nombre)),
    }
}

/// The spec view of a configuration outcome.
pub open spec fn vista_validacion(r: Result<(), ErrorConfiguracion>) -> Option<Seq<char>> {
    match r {
        Ok(()) => None,
        Err(e) => Some(e.mensaje@),
    }
}

/// The spec view of a lookup outcome.
pub open spec fn vista_obtencion(r: Result<String, ErrorConfiguracion>) -> Result<Seq<char>, Seq<char>> {
    match r {
        Ok(v) => Ok(v@),
        Err(e) => Err(e.mensaje@),
    }
}

/// The view of an optional string.
pub open spec fn vista_opcional(v: Option<String>) -> Option<Seq<char>> {
    match v {
        Some(s) => Some(s@),
        None => None,
    }
}

/// Checks that the configuration is complete: the `.env` file exists and
/// both `mysql_url` and `mongodb_url` are defined (their values are what the
/// environment holds after loading it, `None` where a variable is missing).
pub fn validar_configuracion(
    existe_env: bool,
    mysql_url: &Option<String>,
    mongodb_url: &Option<String>,
) -> (r: Result<(), ErrorConfiguracion>)
    ensures
        vista_validacion(r) == validacion(existe_env, mysql_url is Some, mongodb_url is Some),
{
    if !existe_env {
        return Err(ErrorConfiguracion { mensaje: "El archivo .env no existe".to_owned() });
    }
    if mysql_url.is_none() {
        return Err(
            ErrorConfiguracion {
                mensaje: "La variable mysql_url no está definida en .env".to_owned(),
            },
        );
    }
    if mongodb_url.is_none() {
        return Err(
            ErrorConfiguracion {
                mensaje: "La variable mongodb_url  no está definida en .env".to_owned(),
            },
        );
    }
    Ok(())
}

/// Returns the value of the variable `nombre`, given what the environment
/// holds for it, or an error that names the variable.
pub fn obtener_variable(nombre: &str, valor: Option<String>) -> (r: Result<String, ErrorConfiguracion>)
    ensures
        vista_obtencion(r) == obtencion(nombre@, vista_opcional(valor)),
{
    match valor {
        Some(v) => Ok(v),
        None => {
            let mut mensaje = "La variable ".to_owned();
            mensaje.append(nombre);
            mensaje.append(" no está definida en .env");
            Err(ErrorConfiguracion { mensaje })
        },
    }
}

/// A complete configuration lets both connection variables be read: when the
/// check passes on some values of `mysql_url` and `mongodb_url`, looking those
/// variables up on the same values succeeds and gives them back.
pub proof fn ley_validacion_permite_leer_urls(
    existe_env: bool,
    mysql_url: Option<Seq<char>>,
    mongodb_url: Option<Seq<char>>,
)
    requires
        validacion(existe_env, mysql_url is Some, mongodb_url is Some) is None,
    ensures
        obtencion("mysql_url"@, mysql_url) == Ok::<Seq<char>, Seq<char>>(mysql_url->0),
        obtencion("mongodb_url"@, mongodb_url) == Ok::<Seq<char>, Seq<char>>(mongodb_url->0),
{
}

/// The configuration is accepted exactly when the `.env` file exists and
/// both URLs are defined; a defined variable is read unchanged, and a
/// missing one is reported by its name, quoted unchanged after
/// "La variable ".
pub proof fn ley_configuracion(
    existe_env: bool,
    hay_mysql: bool,
    hay_mongodb: bool,
    nombre: Seq<char>,
    valor: Seq<char>,
)
    ensures
        validacion(existe_env, hay_mysql, hay_mongodb) is None <==> (existe_env && hay_mysql && hay_mongodb),
        obtencion(nombre, Some(valor)) == Ok::<Seq<char>, Seq<char>>(valor),
        obtencion(nombre, None) is Err,
        obtencion(nombre, None)->Err_0.len() == 12 + nombre.len() + 25,
        obtencion(nombre, None)->Err_0.subrange(12, 12 + nombre.len() as int) == nombre,
{
    reveal_strlit("La variable ");
    reveal_strlit(" no está definida en .env");
    let m = mensaje_variable_faltante(nombre);
    assert(m.subrange(12, 12 + nombre.len() as int) =~= nombre);
}

} // verus!
