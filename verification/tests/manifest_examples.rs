use ezer_cli::compile::{
    build_failure, dev_route, locate_wasm, next_rebuild_count, optimization_summary, status_body, test_outcome,
    wasm_step, wasm_target_listed, DevRoute, WasmStep, NO_WASM_ERROR, WASM_ATTEMPTS,
    WASM_UNAVAILABLE,
};
use ezer_cli::examples::{
    example_listing, example_not_found, extension, find_example, find_wasm,
    get_example_description, has_extension, init_example_not_found, matches_example, stem,
    FileName,
};
use ezer_cli::manifest::{plugin_manifest, read_plugin_manifest, sdk_version, toml_package, TomlPackage};

fn utf8(s: &str) -> FileName {
    FileName::Utf8(s.to_string())
}

#[test]
fn manifest_name_and_version() {
    let text = "[package]\nname = \"mi-plugin\"\nversion = \"1.2.3\"\n";
    assert_eq!(plugin_manifest(text), Some(Ok(("mi-plugin".to_string(), "1.2.3".to_string()))));
}

#[test]
fn manifest_version_defaults() {
    let text = "[package]\nname = \"p\"\nversion = 3\n";
    assert_eq!(plugin_manifest(text), Some(Ok(("p".to_string(), "0.0.0".to_string()))));
}

#[test]
fn manifest_name_not_a_string() {
    let text = "[package]\nname = 5\n";
    assert_eq!(
        plugin_manifest(text),
        Some(Err("No se encontró [package].name en Cargo.toml".to_string()))
    );
}

#[test]
fn manifest_missing_entries_stop() {
    assert_eq!(plugin_manifest("[package]\nname = \"p\"\n"), None);
    assert_eq!(plugin_manifest("[lib]\nx = 1\n"), None);
}

#[test]
fn manifest_parse_error() {
    let text = "[package\nname = ";
    let err = toml::from_str::<toml::Value>(text).unwrap_err().to_string();
    assert_eq!(plugin_manifest(text), Some(Err(format!("Error parseando Cargo.toml: {}", err))));
}

#[test]
fn toml_package_entries() {
    let p = toml_package("[package]\nname = \"n\"\nversion = true\n").unwrap();
    assert_eq!(p.name, Some(Some("n".to_string())));
    assert_eq!(p.version, Some(None));
    let q = TomlPackage { name: Some(Some("a".to_string())), version: Some(Some("9".to_string())) };
    assert_eq!(read_plugin_manifest(&q), Ok(("a".to_string(), "9".to_string())));
}

#[test]
fn sdk_versions() {
    assert_eq!(sdk_version(None), Some("0.1.3".to_string()));
    assert_eq!(sdk_version(Some("[package]\nversion = \"0.2.0\"\n")), Some("0.2.0".to_string()));
    assert_eq!(sdk_version(Some("[package]\nversion = 1\n")), Some("0.1.3".to_string()));
    assert_eq!(sdk_version(Some("[package]\nname = \"x\"\n")), None);
    assert_eq!(sdk_version(Some("not = [toml")), None);
}

#[test]
fn descriptions() {
    assert_eq!(get_example_description("01_dashboard_metricas"), "Dashboard con métricas, charts y tablas");
    assert_eq!(get_example_description("30_integracion_phone_call"), "Integración con Phone/Call (llamadas)");
    assert_eq!(get_example_description("21_monitor_red_snmp"), "Monitoreo de red via SNMP/Zabbix");
    assert_eq!(get_example_description("01_dashboard"), "Ejemplo de plugin");
    assert_eq!(get_example_description(""), "Ejemplo de plugin");
}

#[test]
fn extensions_and_stems_agree_with_path() {
    let names: [&str; 7] = ["a.rs", ".rs", "a.b.c", "noext", "x.", ".hidden.rs", "a..rs"];
    for n in names.iter() {
        let p = std::path::Path::new(n);
        let f = utf8(n);
        assert_eq!(extension(&f), p.extension().map(|e| e.to_str().unwrap().to_string()), "{}", n);
        assert_eq!(stem(&f), p.file_stem().map(|e| e.to_str().unwrap().to_string()), "{}", n);
    }
    let raw = FileName::NonUtf8 { extension: Some("rs".to_string()) };
    assert!(has_extension(&raw, "rs"));
    assert_eq!(stem(&raw), None);
}

#[test]
fn example_lookup_by_prefix() {
    let files = vec![utf8("README.md"), utf8("02_monitor_sla.rs"), utf8("01_dashboard_metricas.rs")];
    assert_eq!(find_example(&files, "01"), Some(2));
    assert_eq!(find_example(&files, "02_monitor_sla"), Some(1));
    assert_eq!(find_example(&files, "README"), None);
    assert_eq!(find_example(&files, "03"), None);
    assert_eq!(find_example(&files, ""), Some(1));
    assert!(matches_example(&files[1], "02_mon"));
    assert!(!matches_example(&files[0], "READ"));
}

#[test]
fn example_listing_lines() {
    let files = vec![
        utf8("02_monitor_sla.rs"),
        utf8("notes.txt"),
        FileName::NonUtf8 { extension: Some("rs".to_string()) },
        utf8("99_nuevo.rs"),
    ];
    let listing = example_listing(&files);
    assert_eq!(
        listing,
        vec![
            ("02_monitor_sla".to_string(), "Monitor de SLA con alertas y eventos".to_string()),
            ("?".to_string(), "Ejemplo de plugin".to_string()),
            ("99_nuevo".to_string(), "Ejemplo de plugin".to_string()),
        ]
    );
}

#[test]
fn example_errors() {
    assert_eq!(example_not_found("zz"), "No se encontró el ejemplo 'zz'");
    assert_eq!(
        init_example_not_found("zz"),
        "No se encontró el ejemplo 'zz'. Usa 'ezer examples' para ver los disponibles."
    );
}

#[test]
fn wasm_lookup() {
    let files = vec![utf8("deps"), utf8("p.d"), utf8("mi_plugin.wasm"), utf8("otro.wasm")];
    assert_eq!(find_wasm(&files), Some(2));
    assert_eq!(locate_wasm(&files, None), Ok(2));
    assert_eq!(locate_wasm(&files, Some("Error al leer entrada: x".to_string())), Ok(2));
    let none = vec![utf8("build"), utf8(".wasm")];
    assert_eq!(locate_wasm(&none, None), Err(NO_WASM_ERROR.to_string()));
    assert_eq!(
        locate_wasm(&none, Some("Error al leer entrada: x".to_string())),
        Err("Error al leer entrada: x".to_string())
    );
    assert_eq!(NO_WASM_ERROR, "No se encontró el archivo .wasm compilado.");
}

#[test]
fn installed_targets() {
    assert!(wasm_target_listed(Some("x86_64-unknown-linux-gnu\nwasm32-unknown-unknown\n")));
    assert!(wasm_target_listed(Some("  wasm32-unknown-unknown\r\n")));
    assert!(wasm_target_listed(Some("wasm32-unknown-unknown")));
    assert!(!wasm_target_listed(Some("wasm32-unknown-unknown-extra\n")));
    assert!(!wasm_target_listed(Some("wasm32-wasi\n")));
    assert!(!wasm_target_listed(Some("")));
    assert!(!wasm_target_listed(None));
}

#[test]
fn build_and_test_reports() {
    assert_eq!(build_failure("error[E0425]"), "Fallo en la compilación:\nerror[E0425]");
    assert_eq!(test_outcome(true, "ignored"), Ok(()));
    assert_eq!(test_outcome(false, "fallo"), Err("Tests fallaron:\nfallo".to_string()));
    assert_eq!(
        optimization_summary(2_097_152, 1536),
        ("2.0 MB".to_string(), "1.5 KB".to_string(), "2.0 MB".to_string())
    );
    assert_eq!(
        optimization_summary(100, 200),
        ("100 B".to_string(), "200 B".to_string(), "0 B".to_string())
    );
}

#[test]
fn dev_routes() {
    assert_eq!(dev_route("/plugin.wasm"), DevRoute::Wasm);
    assert_eq!(dev_route("/plugin.wasm?t=123"), DevRoute::Wasm);
    assert_eq!(dev_route("/status"), DevRoute::Status);
    assert_eq!(dev_route("/status?x"), DevRoute::Status);
    assert_eq!(dev_route("/"), DevRoute::Page);
    assert_eq!(dev_route("/status/extra"), DevRoute::Page);
    assert_eq!(dev_route("?/status"), DevRoute::Page);
    assert_eq!(dev_route(""), DevRoute::Page);
}

#[test]
fn status_bodies() {
    assert_eq!(status_body(0), "{\"rebuild\":0}");
    assert_eq!(status_body(42), "{\"rebuild\":42}");
    assert_eq!(status_body(u64::MAX), format!("{{\"rebuild\":{}}}", u64::MAX));
}

#[test]
fn wasm_reads() {
    let data: [u8; 2] = [0, 1];
    let empty: [u8; 0] = [];
    assert_eq!(wasm_step(0, Some(&data)), WasmStep::Serve);
    assert_eq!(wasm_step(4, Some(&data)), WasmStep::Serve);
    assert_eq!(wasm_step(0, Some(&empty)), WasmStep::Retry);
    assert_eq!(wasm_step(3, None), WasmStep::Retry);
    assert_eq!(wasm_step(4, None), WasmStep::Unavailable);
    assert_eq!(wasm_step(WASM_ATTEMPTS - 1, Some(&empty)), WasmStep::Unavailable);
    assert_eq!(WASM_UNAVAILABLE, "WASM no disponible o en compilación.");
}

#[test]
fn rebuild_counter() {
    assert_eq!(next_rebuild_count(0, true), 1);
    assert_eq!(next_rebuild_count(7, false), 7);
    assert_eq!(next_rebuild_count(u64::MAX, true), 0);
    let mut n: u64 = 0;
    let outcomes: [bool; 5] = [true, false, true, true, false];
    for ok in outcomes.iter() {
        n = next_rebuild_count(n, *ok);
    }
    assert_eq!(n, 3);
}

#[test]
fn example_descriptions_are_distinct() {
    let keys: [&str; 30] = [
        "01_dashboard_metricas",
        "02_monitor_sla",
        "03_exportador_datos",
        "04_reportes_programados",
        "05_hub_integraciones",
        "06_gestor_tickets",
        "07_formulario_contacto",
        "08_buscador_avanzado",
        "09_chatbot_inteligente",
        "10_sistema_encuestas",
        "11_gestor_conocimiento",
        "12_monitor_chat",
        "13_admin_workflows",
        "14_gestor_cupones",
        "15_dashboard_agentes",
        "16_reporte_satisfaccion",
        "17_integracion_email",
        "18_gestor_notificaciones",
        "19_monitor_rendimiento",
        "20_panel_configuracion",
        "21_monitor_red_snmp",
        "22_receptor_traps_snmp",
        "23_bot_telegram_soporte",
        "24_notificador_telegram",
        "25_generador_facturas",
        "26_portal_clientes",
        "27_api_integration_hub",
        "28_integracion_phone_sms",
        "29_inventario_custom",
        "30_integracion_phone_call",
    ];
    let mut seen: Vec<String> = Vec::new();
    for k in keys.iter() {
        let d = get_example_description(k);
        assert_ne!(d, "Ejemplo de plugin");
        assert!(!seen.contains(&d), "{} repeats a description", k);
        seen.push(d);
    }
    assert_eq!(get_example_description("31_integracion_whatsapp_bridge"), "Ejemplo de plugin");
    assert_eq!(get_example_description("23_bridge_integration_snmp"), "Ejemplo de plugin");
}
