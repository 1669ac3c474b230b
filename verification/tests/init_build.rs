use base64::Engine;
use ezer_cli::compile::{build_precheck, NO_MANIFEST_ERROR, NO_TARGET_ERROR};
use ezer_cli::template::{
    default_lib_rs, detect_sdk_dependency, existing_folder_error, init_folder_check, placeholder_png,
    plugin_cargo_toml, plugin_docs, docs_write_error, PLACEHOLDER_PNG_BASE64, PLUGIN_DOCS,
};

#[test]
fn test_init_plugin_creates_files() {
    let sdk_dep = detect_sdk_dependency("0.1.3", None);
    let cargo = plugin_cargo_toml("test-plugin", &sdk_dep);
    assert!(cargo.contains(r#"name = "test-plugin""#));
    assert!(cargo.contains(r#"edition = "2024""#));
    assert!(cargo.contains(&format!(r#"ezerdesk-sdk"#)));

    let lib = default_lib_rs();
    assert!(lib.contains("#[sdk::main]"));
    assert!(lib.contains("PluginEvent::GetMetadata"));
    assert!(lib.contains("NavItem::new"));
}

#[test]
fn test_init_plugin_existing_dir() {
    let result = init_folder_check("existing-plugin", true);
    assert!(result.is_err());
    assert!(result.unwrap_err().contains("ya existe"));
}

#[test]
fn test_build_plugin_no_cargo_toml() {
    let result = build_precheck(false, true);
    assert!(result.is_err());
    assert!(result.unwrap_err().contains("Cargo.toml"));
}

#[test]
fn plugin_cargo_toml_is_the_full_template() {
    let cargo = plugin_cargo_toml("mi-plugin", "ezerdesk-sdk = \"0.2.0\"");
    let expected = "[package]\nname = \"mi-plugin\"\nversion = \"0.1.0\"\nedition = \"2024\"\n\n[lib]\ncrate-type = [\"cdylib\"]\n\n[workspace]\n\n[profile.release]\nopt-level = \"z\"\nlto = true\nstrip = true\npanic = \"abort\"\ncodegen-units = 1\n\n[dependencies]\nserde = { version = \"1.0\", features = [\"derive\"] }\nserde_json = \"1.0\"\ngetrandom = { version = \"0.2\", features = [\"js\"] }\nezerdesk-sdk = \"0.2.0\"\n";
    assert_eq!(cargo, expected);
}

#[test]
fn sdk_dependency_from_registry() {
    assert_eq!(detect_sdk_dependency("0.1.3", None), "ezerdesk-sdk = \"0.1.3\"");
}

#[test]
fn sdk_dependency_with_local_sources() {
    assert_eq!(
        detect_sdk_dependency("0.4.1", Some("/src/ezerdesk-sdk")),
        "ezerdesk-sdk = { version = \"0.4.1\" }\n\n[patch.crates-io]\nezerdesk-sdk = { path = \"/src/ezerdesk-sdk\" }"
    );
}

#[test]
fn existing_folder_error_text() {
    assert_eq!(existing_folder_error("demo"), "La carpeta 'demo' ya existe.");
}

#[test]
fn default_lib_rs_starts_with_sdk_import() {
    let lib = default_lib_rs();
    assert!(lib.starts_with("use ezerdesk_sdk as sdk;\nuse sdk::prelude::*;\n"));
    assert!(lib.ends_with("    0\n}\n"));
    assert!(lib.contains("sdk::respond_ok(\"Procesado\");"));
}

#[test]
fn placeholder_png_decodes_to_the_image() {
    let bytes = placeholder_png().expect("placeholder decodes");
    let expected = base64::engine::general_purpose::STANDARD
        .decode(PLACEHOLDER_PNG_BASE64)
        .unwrap();
    assert_eq!(bytes, expected);
    assert_eq!(bytes.len(), 108);
    assert_eq!(&bytes[..8], &[137u8, 80, 78, 71, 13, 10, 26, 10]);
}

#[test]
fn docs_text() {
    let docs = plugin_docs();
    assert_eq!(docs, PLUGIN_DOCS);
    assert!(docs.starts_with("# Documentación del Plugin\n\n## Uso\n"));
    assert!(docs.ends_with("- NumberInput, DateInput\n"));
}

#[test]
fn build_precheck_order() {
    assert_eq!(build_precheck(false, false), Err(NO_MANIFEST_ERROR.to_string()));
    assert_eq!(build_precheck(true, false), Err(NO_TARGET_ERROR.to_string()));
    assert_eq!(build_precheck(true, true), Ok(()));
    assert_eq!(
        NO_MANIFEST_ERROR,
        "No se encontró Cargo.toml en el directorio actual.\nAsegúrate de ejecutar 'ezer build' dentro de la carpeta de un plugin."
    );
}

#[test]
fn new_folder_may_be_created() {
    assert_eq!(init_folder_check("nuevo", false), Ok(()));
}

#[test]
fn docs_write_error_text() {
    assert_eq!(docs_write_error("disco lleno"), "Error escribiendo documentación: disco lleno");
}
