use base64::Engine;
use ezer_cli::publish::{
    auth_reply, image_mime_type, image_path, join, join_cookies, login_body, login_step,
    otp_body, otp_step, saved_session, upload_body, upload_verdict, LoginStep,
};
use ezer_cli::review::{
    approve_body, pending_plugins, read_session, reject_body, review_reply, status_error_text,
    withdraw_session, SessionFile,
};

fn object(pairs: Vec<(&str, serde_json::Value)>) -> String {
    let mut map = serde_json::Map::new();
    for (k, v) in pairs {
        map.insert(k.to_string(), v);
    }
    serde_json::Value::Object(map).to_string()
}

#[test]
fn status_errors() {
    assert_eq!(status_error_text("404 Not Found", "nope"), "Error 404 Not Found: nope");
}

#[test]
fn review_replies() {
    assert_eq!(
        review_reply(200, "200 OK", "{\"mensaje\":\"listo\",\"nota\":\"n\"}", false),
        Ok(vec!["listo".to_string()])
    );
    assert_eq!(
        review_reply(200, "200 OK", "{\"mensaje\":\"listo\",\"nota\":\"n\"}", true),
        Ok(vec!["listo".to_string(), "n".to_string()])
    );
    assert_eq!(review_reply(201, "201 Created", "not json", true), Ok(vec![]));
    assert_eq!(
        review_reply(403, "403 Forbidden", "{\"error\":\"x\"}", false),
        Err("Error 403 Forbidden: {\"error\":\"x\"}".to_string())
    );
}

#[test]
fn review_bodies() {
    assert_eq!(approve_body(None), "{}");
    assert_eq!(approve_body(Some("mi-slug")), object(vec![("slug", serde_json::Value::from("mi-slug"))]));
    assert_eq!(reject_body("no \"cumple\""), object(vec![("motivo", serde_json::Value::from("no \"cumple\""))]));
}

#[test]
fn sessions() {
    assert_eq!(read_session(SessionFile::Text("  a=1; b=2 \n".to_string())), Ok("a=1; b=2".to_string()));
    assert_eq!(
        read_session(SessionFile::Missing),
        Err("No hay sesión guardada. Ejecuta 'ezer publish' primero para autenticarte.".to_string())
    );
    assert_eq!(
        read_session(SessionFile::Unreadable("permiso".to_string())),
        Err("No se pudo leer sesión: permiso".to_string())
    );
    assert_eq!(withdraw_session(SessionFile::Unreadable("x".to_string())), Ok(String::new()));
    assert_eq!(
        withdraw_session(SessionFile::Missing),
        Err("No hay sesión guardada. Ejecuta 'ezer publish' primero.".to_string())
    );
    assert_eq!(withdraw_session(SessionFile::Text("c\n".to_string())), Ok("c".to_string()));
    assert_eq!(saved_session(Some("\tk=v\n")), "k=v");
    assert_eq!(saved_session(None), "");
}

#[test]
fn pending_list() {
    let body = "[{\"id\":\"1\",\"nombre\":\"A\",\"version\":\"1.0\",\"estado_revision\":\"pendiente\",\"firma_verificada\":true},{\"id\":\"2\",\"estado_revision\":\"aprobado\"},{\"estado_revision\":\"pendiente\",\"version\":3}]";
    let list = pending_plugins(200, "200 OK", body).unwrap();
    assert_eq!(list.len(), 2);
    assert_eq!(list[0].id, "1");
    assert_eq!(list[0].name, "A");
    assert_eq!(list[0].version, "1.0");
    assert!(list[0].signature_verified);
    assert_eq!(list[1].id, "?");
    assert_eq!(list[1].name, "?");
    assert_eq!(list[1].version, "?");
    assert!(!list[1].signature_verified);
}

#[test]
fn pending_errors() {
    match pending_plugins(500, "500 Internal Server Error", "boom") {
        Err(m) => assert_eq!(m, "Error 500 Internal Server Error: boom"),
        Ok(_) => panic!("a failure status is an error"),
    }
    let parse_error = serde_json::from_str::<Vec<serde_json::Value>>("{\"a\":1}").unwrap_err().to_string();
    match pending_plugins(200, "200 OK", "{\"a\":1}") {
        Err(m) => assert_eq!(m, format!("Error parseando JSON: {}", parse_error)),
        Ok(_) => panic!("an object is not a list"),
    }
    match pending_plugins(200, "200 OK", "[]") {
        Ok(list) => assert!(list.is_empty()),
        Err(_) => panic!("an empty list is fine"),
    }
}

#[test]
fn mime_types() {
    assert_eq!(image_mime_type("logo.PNG"), "image/png");
    assert_eq!(image_mime_type("foto.JPG"), "image/jpeg");
    assert_eq!(image_mime_type("foto.jpeg"), "image/jpeg");
    assert_eq!(image_mime_type("a.b/anim.Gif"), "image/gif");
    assert_eq!(image_mime_type("x.webp"), "image/webp");
    assert_eq!(image_mime_type("webp"), "image/webp");
    assert_eq!(image_mime_type("imagen"), "image/png");
    assert_eq!(image_mime_type("foto.jpg.bmp"), "image/png");
}

#[test]
fn image_choice() {
    assert_eq!(image_path(Some("a.png"), "/p/plugin.png", true), Some("a.png".to_string()));
    assert_eq!(image_path(None, "/p/plugin.png", true), Some("/p/plugin.png".to_string()));
    assert_eq!(image_path(None, "/p/plugin.png", false), None);
    assert_eq!(image_path(Some(""), "/p/plugin.png", true), None);
}

#[test]
fn upload_bodies() {
    let wasm: [u8; 4] = [0, 97, 115, 109];
    let std64 = base64::engine::general_purpose::STANDARD;
    let expected = object(vec![
        ("codigo_wasm_base64", serde_json::Value::from(std64.encode(wasm))),
        ("precio", serde_json::Value::from(150i64)),
        ("es_pago", serde_json::Value::from(true)),
        ("activo", serde_json::Value::from(false)),
    ]);
    assert_eq!(upload_body(&wasm, 150, true, false, None), expected);
    let img: [u8; 3] = [1, 2, 3];
    let with_image = object(vec![
        ("codigo_wasm_base64", serde_json::Value::from(std64.encode(wasm))),
        ("precio", serde_json::Value::from(0i64)),
        ("es_pago", serde_json::Value::from(false)),
        ("activo", serde_json::Value::from(true)),
        ("imagen_base64", serde_json::Value::from(std64.encode(img))),
        ("imagen_tipo", serde_json::Value::from("image/gif")),
    ]);
    assert_eq!(upload_body(&wasm, 0, false, true, Some((&img, "image/gif"))), with_image);
    assert!(upload_body(&wasm, 0, false, true, None).contains("\"codigo_wasm_base64\":\"AGFzbQ==\""));
}

#[test]
fn login_bodies() {
    assert_eq!(
        login_body("a@b.c", "p\"w"),
        object(vec![("correo", serde_json::Value::from("a@b.c")), ("clave", serde_json::Value::from("p\"w"))])
    );
    assert_eq!(
        otp_body("123456", "tok"),
        object(vec![("code", serde_json::Value::from("123456")), ("mfa_token", serde_json::Value::from("tok"))])
    );
}

#[test]
fn cookies_are_joined() {
    assert_eq!(join_cookies(&vec![]), "");
    assert_eq!(join_cookies(&vec!["a=1".to_string()]), "a=1");
    assert_eq!(join_cookies(&vec!["a=1".to_string(), "b=2; Path=/".to_string()]), "a=1; b=2; Path=/");
    assert_eq!(join(&vec!["x".to_string(), "y".to_string(), "z".to_string()], "-"), "x-y-z");
}

#[test]
fn login_steps() {
    assert!(matches!(login_step(401, "bad"), LoginStep::Rejected(ref m) if m == "Login fallido: bad"));
    assert!(matches!(login_step(200, "{\"ok\":true}"), LoginStep::LoggedIn));
    assert!(matches!(login_step(200, "not json"), LoginStep::LoggedIn));
    assert!(matches!(
        login_step(200, "{\"status\":\"mfa_required\",\"mfa_token\":\"t1\"}"),
        LoginStep::NeedsCode(ref t) if t == "t1"
    ));
    assert!(matches!(
        login_step(200, "{\"status\":\"mfa_required\"}"),
        LoginStep::NeedsCode(ref t) if t.is_empty()
    ));
    assert_eq!(otp_step(200), Ok(()));
    assert_eq!(otp_step(400), Err("Código OTP inválido".to_string()));
}

#[test]
fn authenticated_replies() {
    let r = auth_reply(200, "ok".to_string());
    assert_eq!(r.result, Ok("ok".to_string()));
    assert!(!r.clear_session);
    let r = auth_reply(401, "no".to_string());
    assert_eq!(r.result, Err("no".to_string()));
    assert!(r.clear_session);
    let r = auth_reply(500, "x".to_string());
    assert_eq!(r.result, Err("x".to_string()));
    assert!(!r.clear_session);
}

#[test]
fn upload_verdicts() {
    assert_eq!(upload_verdict("{\"id\":\"1\"}"), Ok(()));
    assert_eq!(upload_verdict("no json"), Ok(()));
    assert_eq!(
        upload_verdict("{\"codigo\":\"VALIDACION_FALLIDA\",\"detalles\":[\"a\",1,\"b\"],\"error\":\"e\"}"),
        Err("Validación fallida:\n  • a\n  • b".to_string())
    );
    assert_eq!(
        upload_verdict("{\"codigo\":\"VALIDACION_FALLIDA\",\"error\":\"e\"}"),
        Err("El servidor rechazó el plugin (VALIDACION_FALLIDA): e".to_string())
    );
    assert_eq!(
        upload_verdict("{\"error\":\"cuota\"}"),
        Err("El servidor rechazó el plugin (DESCONOCIDO): cuota".to_string())
    );
    assert_eq!(
        upload_verdict("{\"codigo\":\"VALIDACION_FALLIDA\",\"detalles\":[]}"),
        Err("Validación fallida:\n  • ".to_string())
    );
}
