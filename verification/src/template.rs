//! What `ezer init` writes into a new plugin project: its `Cargo.toml`, the
//! default `src/lib.rs` and the placeholder `plugin.png`.
use vstd::prelude::*;

use crate::b64::{b64_group, b64_text, decode_standard, lemma_b64_injective};

verus! {

/// The `Cargo.toml` of a new plugin, up to its name.
pub const CARGO_TOML_HEAD: &'static str = "[package]\nname = \"";

/// The `Cargo.toml` of a new plugin, from its name to the SDK dependency.
pub const CARGO_TOML_BODY: &'static str = "\"\nversion = \"0.1.0\"\nedition = \"2024\"\n\n[lib]\ncrate-type = [\"cdylib\"]\n\n[workspace]\n\n[profile.release]\nopt-level = \"z\"\nlto = true\nstrip = true\npanic = \"abort\"\ncodegen-units = 1\n\n[dependencies]\nserde = { version = \"1.0\", features = [\"derive\"] }\nserde_json = \"1.0\"\ngetrandom = { version = \"0.2\", features = [\"js\"] }\n";

/// The `src/lib.rs` of a new plugin when no example is chosen.
pub const DEFAULT_LIB_RS: &'static str = r#"use ezerdesk_sdk as sdk;
use sdk::prelude::*;

#[sdk::main]
fn main(event: PluginEvent) -> i32 {
    match event {
        PluginEvent::GetMetadata => {
            let meta = PluginMetadata::new()
                .nav_item(NavItem::new("dashboard", "Mi Plugin", "rocket-line")
                    .category("operaciones")
                    .priority(10))
                .name("Mi Plugin")
                .description("Describe brevemente qué hace tu plugin.")
                .version(env!("CARGO_PKG_VERSION"));
            sdk::to_host_response(&meta);
        }

        PluginEvent::PageRequest { page_id } => {
            match page_id.as_str() {
                "dashboard" => {
                    sdk::respond(sdk::widgets![
                        sdk::card("Panel Principal", vec![
                            sdk::text("Bienvenido a tu plugin.", "info")
                        ])
                    ]);
                },
                _ => {}
            }
        }

        PluginEvent::GetUiFragments { location } => {
            match location.as_str() {
                "plugin_settings" => {
                    sdk::respond(sdk::widgets![
                        sdk::card("Configuración", vec![
                            sdk::text("Ajusta los parámetros del plugin.", "muted"),
                            sdk::input("API Key", "api_key", "Ingresa tu llave..."),
                        ])
                    ]);
                },
                _ => {}
            }
        }

        PluginEvent::PluginAction { action, data } => {
            sdk::log(&format!("Acción '{}' con datos: {:?}", action, data));
            sdk::respond_ok("Procesado");
        }

        PluginEvent::TicketCreated(ticket) => {
            sdk::log(&format!("Ticket creado: {}", ticket.asunto));
        }

        _ => {}
    }

    0
}
"#;

/// The placeholder `plugin.png` (a 16x16 image), in Base64.
pub const PLACEHOLDER_PNG_BASE64: &'static str = "iVBORw0KGgoAAAANSUhEUgAAABAAAAAQCAYAAAAf8/9hAAAAMklEQVQ4T2NkYPj/n4EBBJgYKAQMFFnAxEBBA8aBpoAjQ4ECUUiRmYwUiIaIJAAAAP//wzYRkQKZQpZbAAAAAElFTkSuQmCC";

/// The SDK line of a new plugin's `Cargo.toml`: a plain version requirement, or,
/// when the SDK's sources sit next to the CLI, the version patched to that path.
pub open spec fn sdk_dependency_of(version: Seq<char>, local_sdk: Option<Seq<char>>) -> Seq<char> {
    match local_sdk {
        Some(path) => "ezerdesk-sdk = { version = \""@ + version
            + "\" }\n\n[patch.crates-io]\nezerdesk-sdk = { path = \""@ + path + "\" }"@,
        None => "ezerdesk-sdk = \""@ + version + "\""@,
    }
}

/// The SDK dependency of a new plugin. `local_sdk` is the canonical path of the
/// SDK's sources when they are found next to the CLI.
pub fn detect_sdk_dependency(version: &str, local_sdk: Option<&str>) -> (r: String)
    ensures
        r@ == sdk_dependency_of(
            version@,
            match local_sdk {
                Some(p) => Some(p@),
                None => None,
            },
        ),
{
    match local_sdk {
        Some(path) => {
            let mut s = String::from_str("ezerdesk-sdk = { version = \"");
            s.append(version);
            s.append("\" }\n\n[patch.crates-io]\nezerdesk-sdk = { path = \"");
            s.append(path);
            s.append("\" }");
            s
        },
        None => {
            let mut s = String::from_str("ezerdesk-sdk = \"");
            s.append(version);
            s.append("\"");
            s
        },
    }
}

/// The `Cargo.toml` of a new plugin named `name` with the given SDK dependency.
pub fn plugin_cargo_toml(name: &str, sdk_dep: &str) -> (r: String)
    ensures
        r@ == CARGO_TOML_HEAD@ + name@ + CARGO_TOML_BODY@ + sdk_dep@ + "\n"@,
{
    let mut s = String::from_str(CARGO_TOML_HEAD);
    s.append(name);
    s.append(CARGO_TOML_BODY);
    s.append(sdk_dep);
    s.append("\n");
    s
}

/// The `src/lib.rs` of a new plugin when no example is chosen.
pub fn default_lib_rs() -> (r: String)
    ensures
        r@ == DEFAULT_LIB_RS@,
{
    String::from_str(DEFAULT_LIB_RS)
}

/// The documentation that `ezer docs` writes to `PLUGIN_DOCS.md`.
pub const PLUGIN_DOCS: &'static str = r#"# Documentación del Plugin

## Uso
1. Instalar el plugin desde el marketplace
2. Activar el plugin desde Gestión → Plugins
3. Acceder desde el menú lateral

## Eventos Soportados
- GetMetadata: Retorna metadatos del plugin
- PageRequest: Renderiza páginas del plugin
- PluginAction: Maneja acciones del usuario

## Widgets Disponibles
- Card, Text, Button, Input, Select, Switch
- Table, Chart, Badge, Icon, Divider, Modal
- NumberInput, DateInput
"#;

/// The text of `PLUGIN_DOCS.md`.
pub fn plugin_docs() -> (r: String)
    ensures
        r@ == PLUGIN_DOCS@,
{
    String::from_str(PLUGIN_DOCS)
}

/// The error of `ezer docs` when `PLUGIN_DOCS.md` cannot be written.
pub fn docs_write_error(cause: &str) -> (r: String)
    ensures
        r@ == "Error escribiendo documentación: "@ + cause@,
{
    let mut s = String::from_str("Error escribiendo documentación: ");
    s.append(cause);
    s
}

/// The error of `ezer init` when the plugin's folder already exists.
pub fn existing_folder_error(name: &str) -> (r: String)
    ensures
        r@ == "La carpeta '"@ + name@ + "' ya existe."@,
{
    let mut s = String::from_str("La carpeta '");
    s.append(name);
    s.append("' ya existe.");
    s
}

/// Whether `ezer init` may create the plugin's folder: not when it already exists.
pub fn init_folder_check(name: &str, folder_exists: bool) -> (r: Result<(), String>)
    ensures
        !folder_exists ==> r is Ok,
        folder_exists ==> (r matches Err(m) && m@ == "La carpeta '"@ + name@ + "' ya existe."@),
{
    if folder_exists {
        Err(existing_folder_error(name))
    } else {
        Ok(())
    }
}

/// The bytes of the placeholder image.
pub open spec fn placeholder_png_bytes() -> Seq<u8> {
    seq![
        137u8, 80u8, 78u8, 71u8, 13u8, 10u8, 26u8, 10u8, 0u8, 0u8, 0u8, 13u8,
        73u8, 72u8, 68u8, 82u8, 0u8, 0u8, 0u8, 16u8, 0u8, 0u8, 0u8, 16u8,
        8u8, 6u8, 0u8, 0u8, 0u8, 31u8, 243u8, 255u8, 97u8, 0u8, 0u8, 0u8,
        50u8, 73u8, 68u8, 65u8, 84u8, 56u8, 79u8, 99u8, 100u8, 96u8, 248u8, 255u8,
        159u8, 129u8, 1u8, 4u8, 152u8, 24u8, 40u8, 4u8, 12u8, 20u8, 89u8, 192u8,
        196u8, 64u8, 65u8, 3u8, 198u8, 129u8, 166u8, 128u8, 35u8, 67u8, 129u8, 2u8,
        81u8, 72u8, 145u8, 153u8, 140u8, 20u8, 136u8, 134u8, 136u8, 36u8, 0u8, 0u8,
        0u8, 255u8, 255u8, 195u8, 54u8, 17u8, 145u8, 2u8, 153u8, 66u8, 150u8, 91u8,
        0u8, 0u8, 0u8, 0u8, 73u8, 69u8, 78u8, 68u8, 174u8, 66u8, 96u8, 130u8,
    ]
}

/// Group `k` of the placeholder: its bytes `3k..3k+3` give its characters `4k..4k+4`.
#[verifier::rlimit(100)]
#[verifier::spinoff_prover]
proof fn lemma_placeholder_group(k: int)
    requires
        0 <= k < 36,
    ensures
        b64_group(
            placeholder_png_bytes()[3 * k],
            placeholder_png_bytes()[3 * k + 1],
            placeholder_png_bytes()[3 * k + 2],
        ) == PLACEHOLDER_PNG_BASE64@.subrange(4 * k, 4 * k + 4),
{
    reveal_strlit("iVBORw0KGgoAAAANSUhEUgAAABAAAAAQCAYAAAAf8/9hAAAAMklEQVQ4T2NkYPj/n4EBBJgYKAQMFFnAxEBBA8aBpoAjQ4ECUUiRmYwUiIaIJAAAAP//wzYRkQKZQpZbAAAAAElFTkSuQmCC");
    assert(placeholder_png_bytes().len() == 108);
    assert(PLACEHOLDER_PNG_BASE64@.len() == 144);
    if k == 0 {
    } else if k == 1 {
    } else if k == 2 {
    } else if k == 3 {
    } else if k == 4 {
    } else if k == 5 {
    } else if k == 6 {
    } else if k == 7 {
    } else if k == 8 {
    } else if k == 9 {
    } else if k == 10 {
    } else if k == 11 {
    } else if k == 12 {
    } else if k == 13 {
    } else if k == 14 {
    } else if k == 15 {
    } else if k == 16 {
    } else if k == 17 {
    } else if k == 18 {
    } else if k == 19 {
    } else if k == 20 {
    } else if k == 21 {
    } else if k == 22 {
    } else if k == 23 {
    } else if k == 24 {
    } else if k == 25 {
    } else if k == 26 {
    } else if k == 27 {
    } else if k == 28 {
    } else if k == 29 {
    } else if k == 30 {
    } else if k == 31 {
    } else if k == 32 {
    } else if k == 33 {
    } else if k == 34 {
    } else {
    }
}

/// The placeholder bytes from group `k` on encode the placeholder text from
/// character `4k` on.
proof fn lemma_placeholder_from(k: int)
    requires
        0 <= k <= 36,
    ensures
        b64_text(placeholder_png_bytes().subrange(3 * k, 108)) == PLACEHOLDER_PNG_BASE64@.subrange(
            4 * k,
            144,
        ),
    decreases 36 - k,
{
    reveal_strlit("iVBORw0KGgoAAAANSUhEUgAAABAAAAAQCAYAAAAf8/9hAAAAMklEQVQ4T2NkYPj/n4EBBJgYKAQMFFnAxEBBA8aBpoAjQ4ECUUiRmYwUiIaIJAAAAP//wzYRkQKZQpZbAAAAAElFTkSuQmCC");
    let b = placeholder_png_bytes();
    let t = PLACEHOLDER_PNG_BASE64@;
    assert(b.len() == 108);
    assert(t.len() == 144);
    if k == 36 {
        assert(b.subrange(108, 108) =~= seq![]);
        assert(t.subrange(144, 144) =~= seq![]);
    } else {
        lemma_placeholder_from(k + 1);
        lemma_placeholder_group(k);
        let s = b.subrange(3 * k, 108);
        assert(s.subrange(3, s.len() as int) =~= b.subrange(3 * k + 3, 108));
        assert(s[0] == b[3 * k] && s[1] == b[3 * k + 1] && s[2] == b[3 * k + 2]);
        assert(t.subrange(4 * k, 144) =~= t.subrange(4 * k, 4 * k + 4) + t.subrange(4 * k + 4, 144));
    }
}

/// The placeholder text is the encoding of the placeholder bytes.
pub proof fn lemma_placeholder_encoding()
    ensures
        b64_text(placeholder_png_bytes()) == PLACEHOLDER_PNG_BASE64@,
{
    reveal_strlit("iVBORw0KGgoAAAANSUhEUgAAABAAAAAQCAYAAAAf8/9hAAAAMklEQVQ4T2NkYPj/n4EBBJgYKAQMFFnAxEBBA8aBpoAjQ4ECUUiRmYwUiIaIJAAAAP//wzYRkQKZQpZbAAAAAElFTkSuQmCC");
    lemma_placeholder_from(0);
    assert(placeholder_png_bytes().subrange(0, 108) =~= placeholder_png_bytes());
    assert(PLACEHOLDER_PNG_BASE64@.subrange(0, 144) =~= PLACEHOLDER_PNG_BASE64@);
}

/// Decodes the placeholder image. Decoding cannot fail: the text is the
/// encoding of the placeholder bytes.
pub fn placeholder_png() -> (r: Result<Vec<u8>, String>)
    ensures
        r matches Ok(b) && b@ == placeholder_png_bytes(),
{
    proof {
        lemma_placeholder_encoding();
    }
    match decode_standard(PLACEHOLDER_PNG_BASE64) {
        Ok(b) => {
            proof {
                lemma_b64_injective(b@, placeholder_png_bytes());
            }
            Ok(b)
        },
        Err(_) => {
            assert(b64_text(placeholder_png_bytes()) != PLACEHOLDER_PNG_BASE64@);
            Err(String::from_str("Error decodificando placeholder PNG"))
        },
    }
}

} // verus!
