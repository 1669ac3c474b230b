//! The example plugins shipped with the CLI: their descriptions, how a name given
//! on the command line picks one, and how the listing and the `.wasm` lookup read
//! directory entries.
use vstd::prelude::*;

use crate::text::{chars_of, has_prefix, is_prefix, push_range, str_eq};

verus! {

/// The one-line description shown for an example plugin.
pub open spec fn example_description(name: Seq<char>) -> Seq<char> {
    if name == "01_dashboard_metricas"@ {
        "Dashboard con métricas, charts y tablas"@
    } else if name == "02_monitor_sla"@ {
        "Monitor de SLA con alertas y eventos"@
    } else if name == "03_exportador_datos"@ {
        "Exportación de datos a CSV"@
    } else if name == "04_reportes_programados"@ {
        "Reportes automáticos con cron"@
    } else if name == "05_hub_integraciones"@ {
        "Integraciones con OAuth (Google, Slack, GitHub)"@
    } else if name == "06_gestor_tickets"@ {
        "Gestión de tickets con filtros"@
    } else if name == "07_formulario_contacto"@ {
        "Formulario completo con validación"@
    } else if name == "08_buscador_avanzado"@ {
        "Búsqueda multi-entidad"@
    } else if name == "09_chatbot_inteligente"@ {
        "Chatbot con IA y HTTP"@
    } else if name == "10_sistema_encuestas"@ {
        "Sistema de encuestas con analytics"@
    } else if name == "11_gestor_conocimiento"@ {
        "Gestión de base de conocimiento"@
    } else if name == "12_monitor_chat"@ {
        "Monitor de chat en vivo"@
    } else if name == "13_admin_workflows"@ {
        "Administración de workflows"@
    } else if name == "14_gestor_cupones"@ {
        "Gestión de cupones de descuento"@
    } else if name == "15_dashboard_agentes"@ {
        "Dashboard de rendimiento de agentes"@
    } else if name == "16_reporte_satisfaccion"@ {
        "Reportes de satisfacción del cliente"@
    } else if name == "17_integracion_email"@ {
        "Integración con email"@
    } else if name == "18_gestor_notificaciones"@ {
        "Gestor de notificaciones multi-canal"@
    } else if name == "19_monitor_rendimiento"@ {
        "Monitor de rendimiento del sistema"@
    } else if name == "20_panel_configuracion"@ {
        "Panel de configuración del sistema"@
    } else if name == "21_monitor_red_snmp"@ {
        "Monitoreo de red via SNMP/Zabbix"@
    } else if name == "22_receptor_traps_snmp"@ {
        "Receptor de traps SNMP"@
    } else if name == "23_bot_telegram_soporte"@ {
        "Bot de Telegram para soporte"@
    } else if name == "24_notificador_telegram"@ {
        "Notificaciones automáticas via Telegram"@
    } else if name == "25_generador_facturas"@ {
        "Generación de facturas y envío por email"@
    } else if name == "26_portal_clientes"@ {
        "Portal self-service para clientes"@
    } else if name == "27_api_integration_hub"@ {
        "Hub de integraciones con servicios externos"@
    } else if name == "28_integracion_phone_sms"@ {
        "Integración con Phone/SMS"@
    } else if name == "29_inventario_custom"@ {
        "Gestión de inventario con modelos de datos custom"@
    } else if name == "30_integracion_phone_call"@ {
        "Integración con Phone/Call (llamadas)"@
    } else {
        "Ejemplo de plugin"@
    }
}

/// Whether a name is one of the example plugins with a description of its own.
pub open spec fn is_example_key(name: Seq<char>) -> bool {
    ||| name == "01_dashboard_metricas"@
    ||| name == "02_monitor_sla"@
    ||| name == "03_exportador_datos"@
    ||| name == "04_reportes_programados"@
    ||| name == "05_hub_integraciones"@
    ||| name == "06_gestor_tickets"@
    ||| name == "07_formulario_contacto"@
    ||| name == "08_buscador_avanzado"@
    ||| name == "09_chatbot_inteligente"@
    ||| name == "10_sistema_encuestas"@
    ||| name == "11_gestor_conocimiento"@
    ||| name == "12_monitor_chat"@
    ||| name == "13_admin_workflows"@
    ||| name == "14_gestor_cupones"@
    ||| name == "15_dashboard_agentes"@
    ||| name == "16_reporte_satisfaccion"@
    ||| name == "17_integracion_email"@
    ||| name == "18_gestor_notificaciones"@
    ||| name == "19_monitor_rendimiento"@
    ||| name == "20_panel_configuracion"@
    ||| name == "21_monitor_red_snmp"@
    ||| name == "22_receptor_traps_snmp"@
    ||| name == "23_bot_telegram_soporte"@
    ||| name == "24_notificador_telegram"@
    ||| name == "25_generador_facturas"@
    ||| name == "26_portal_clientes"@
    ||| name == "27_api_integration_hub"@
    ||| name == "28_integracion_phone_sms"@
    ||| name == "29_inventario_custom"@
    ||| name == "30_integracion_phone_call"@
}

/// Each example with a description of its own shows a text that no other example
/// shows, and the default text is shown exactly for the names that are not examples.
pub proof fn lemma_example_descriptions(a: Seq<char>, b: Seq<char>)
    ensures
        (example_description(a) == "Ejemplo de plugin"@) <==> !is_example_key(a),
        is_example_key(a) && is_example_key(b) && a != b ==> example_description(a)
            != example_description(b),
{
    reveal_strlit("Dashboard con métricas, charts y tablas");
    reveal_strlit("Monitor de SLA con alertas y eventos");
    reveal_strlit("Exportación de datos a CSV");
    reveal_strlit("Reportes automáticos con cron");
    reveal_strlit("Integraciones con OAuth (Google, Slack, GitHub)");
    reveal_strlit("Gestión de tickets con filtros");
    reveal_strlit("Formulario completo con validación");
    reveal_strlit("Búsqueda multi-entidad");
    reveal_strlit("Chatbot con IA y HTTP");
    reveal_strlit("Sistema de encuestas con analytics");
    reveal_strlit("Gestión de base de conocimiento");
    reveal_strlit("Monitor de chat en vivo");
    reveal_strlit("Administración de workflows");
    reveal_strlit("Gestión de cupones de descuento");
    reveal_strlit("Dashboard de rendimiento de agentes");
    reveal_strlit("Reportes de satisfacción del cliente");
    reveal_strlit("Integración con email");
    reveal_strlit("Gestor de notificaciones multi-canal");
    reveal_strlit("Monitor de rendimiento del sistema");
    reveal_strlit("Panel de configuración del sistema");
    reveal_strlit("Monitoreo de red via SNMP/Zabbix");
    reveal_strlit("Receptor de traps SNMP");
    reveal_strlit("Bot de Telegram para soporte");
    reveal_strlit("Notificaciones automáticas via Telegram");
    reveal_strlit("Generación de facturas y envío por email");
    reveal_strlit("Portal self-service para clientes");
    reveal_strlit("Hub de integraciones con servicios externos");
    reveal_strlit("Integración con Phone/SMS");
    reveal_strlit("Gestión de inventario con modelos de datos custom");
    reveal_strlit("Integración con Phone/Call (llamadas)");
    reveal_strlit("Ejemplo de plugin");
    assert("Dashboard con métricas, charts y tablas"@.len() == 39);
    assert("Monitor de SLA con alertas y eventos"@.len() == 36);
    assert("Exportación de datos a CSV"@.len() == 26);
    assert("Reportes automáticos con cron"@.len() == 29);
    assert("Integraciones con OAuth (Google, Slack, GitHub)"@.len() == 47);
    assert("Gestión de tickets con filtros"@.len() == 30);
    assert("Formulario completo con validación"@.len() == 34);
    assert("Búsqueda multi-entidad"@.len() == 22);
    assert("Chatbot con IA y HTTP"@.len() == 21);
    assert("Sistema de encuestas con analytics"@.len() == 34);
    assert("Gestión de base de conocimiento"@.len() == 31);
    assert("Monitor de chat en vivo"@.len() == 23);
    assert("Administración de workflows"@.len() == 27);
    assert("Gestión de cupones de descuento"@.len() == 31);
    assert("Dashboard de rendimiento de agentes"@.len() == 35);
    assert("Reportes de satisfacción del cliente"@.len() == 36);
    assert("Integración con email"@.len() == 21);
    assert("Gestor de notificaciones multi-canal"@.len() == 36);
    assert("Monitor de rendimiento del sistema"@.len() == 34);
    assert("Panel de configuración del sistema"@.len() == 34);
    assert("Monitoreo de red via SNMP/Zabbix"@.len() == 32);
    assert("Receptor de traps SNMP"@.len() == 22);
    assert("Bot de Telegram para soporte"@.len() == 28);
    assert("Notificaciones automáticas via Telegram"@.len() == 39);
    assert("Generación de facturas y envío por email"@.len() == 40);
    assert("Portal self-service para clientes"@.len() == 33);
    assert("Hub de integraciones con servicios externos"@.len() == 43);
    assert("Integración con Phone/SMS"@.len() == 25);
    assert("Gestión de inventario con modelos de datos custom"@.len() == 49);
    assert("Integración con Phone/Call (llamadas)"@.len() == 37);
    assert("Ejemplo de plugin"@.len() == 17);
    assert("Dashboard con métricas, charts y tablas"@[0] != "Notificaciones automáticas via Telegram"@[0]);
    assert("Monitor de SLA con alertas y eventos"@[0] != "Reportes de satisfacción del cliente"@[0]);
    assert("Monitor de SLA con alertas y eventos"@[0] != "Gestor de notificaciones multi-canal"@[0]);
    assert("Formulario completo con validación"@[0] != "Sistema de encuestas con analytics"@[0]);
    assert("Formulario completo con validación"@[0] != "Monitor de rendimiento del sistema"@[0]);
    assert("Formulario completo con validación"@[0] != "Panel de configuración del sistema"@[0]);
    assert("Búsqueda multi-entidad"@[0] != "Receptor de traps SNMP"@[0]);
    assert("Chatbot con IA y HTTP"@[0] != "Integración con email"@[0]);
    assert("Sistema de encuestas con analytics"@[0] != "Monitor de rendimiento del sistema"@[0]);
    assert("Sistema de encuestas con analytics"@[0] != "Panel de configuración del sistema"@[0]);
    assert("Gestión de base de conocimiento"@[11] != "Gestión de cupones de descuento"@[11]);
    assert("Reportes de satisfacción del cliente"@[0] != "Gestor de notificaciones multi-canal"@[0]);
    assert("Monitor de rendimiento del sistema"@[0] != "Panel de configuración del sistema"@[0]);
}

/// The description of each example plugin: every one of the examples listed by
/// `ezer examples` is shown with its own text.
#[verifier::rlimit(100)]
pub proof fn lemma_example_table()
    ensures
        example_description("01_dashboard_metricas"@) == "Dashboard con métricas, charts y tablas"@,
        example_description("02_monitor_sla"@) == "Monitor de SLA con alertas y eventos"@,
        example_description("03_exportador_datos"@) == "Exportación de datos a CSV"@,
        example_description("04_reportes_programados"@) == "Reportes automáticos con cron"@,
        example_description("05_hub_integraciones"@) == "Integraciones con OAuth (Google, Slack, GitHub)"@,
        example_description("06_gestor_tickets"@) == "Gestión de tickets con filtros"@,
        example_description("07_formulario_contacto"@) == "Formulario completo con validación"@,
        example_description("08_buscador_avanzado"@) == "Búsqueda multi-entidad"@,
        example_description("09_chatbot_inteligente"@) == "Chatbot con IA y HTTP"@,
        example_description("10_sistema_encuestas"@) == "Sistema de encuestas con analytics"@,
        example_description("11_gestor_conocimiento"@) == "Gestión de base de conocimiento"@,
        example_description("12_monitor_chat"@) == "Monitor de chat en vivo"@,
        example_description("13_admin_workflows"@) == "Administración de workflows"@,
        example_description("14_gestor_cupones"@) == "Gestión de cupones de descuento"@,
        example_description("15_dashboard_agentes"@) == "Dashboard de rendimiento de agentes"@,
        example_description("16_reporte_satisfaccion"@) == "Reportes de satisfacción del cliente"@,
        example_description("17_integracion_email"@) == "Integración con email"@,
        example_description("18_gestor_notificaciones"@) == "Gestor de notificaciones multi-canal"@,
        example_description("19_monitor_rendimiento"@) == "Monitor de rendimiento del sistema"@,
        example_description("20_panel_configuracion"@) == "Panel de configuración del sistema"@,
        example_description("21_monitor_red_snmp"@) == "Monitoreo de red via SNMP/Zabbix"@,
        example_description("22_receptor_traps_snmp"@) == "Receptor de traps SNMP"@,
        example_description("23_bot_telegram_soporte"@) == "Bot de Telegram para soporte"@,
        example_description("24_notificador_telegram"@) == "Notificaciones automáticas via Telegram"@,
        example_description("25_generador_facturas"@) == "Generación de facturas y envío por email"@,
        example_description("26_portal_clientes"@) == "Portal self-service para clientes"@,
        example_description("27_api_integration_hub"@) == "Hub de integraciones con servicios externos"@,
        example_description("28_integracion_phone_sms"@) == "Integración con Phone/SMS"@,
        example_description("29_inventario_custom"@) == "Gestión de inventario con modelos de datos custom"@,
        example_description("30_integracion_phone_call"@) == "Integración con Phone/Call (llamadas)"@,
{
    reveal_strlit("01_dashboard_metricas");
    reveal_strlit("02_monitor_sla");
    reveal_strlit("03_exportador_datos");
    reveal_strlit("04_reportes_programados");
    reveal_strlit("05_hub_integraciones");
    reveal_strlit("06_gestor_tickets");
    reveal_strlit("07_formulario_contacto");
    reveal_strlit("08_buscador_avanzado");
    reveal_strlit("09_chatbot_inteligente");
    reveal_strlit("10_sistema_encuestas");
    reveal_strlit("11_gestor_conocimiento");
    reveal_strlit("12_monitor_chat");
    reveal_strlit("13_admin_workflows");
    reveal_strlit("14_gestor_cupones");
    reveal_strlit("15_dashboard_agentes");
    reveal_strlit("16_reporte_satisfaccion");
    reveal_strlit("17_integracion_email");
    reveal_strlit("18_gestor_notificaciones");
    reveal_strlit("19_monitor_rendimiento");
    reveal_strlit("20_panel_configuracion");
    reveal_strlit("21_monitor_red_snmp");
    reveal_strlit("22_receptor_traps_snmp");
    reveal_strlit("23_bot_telegram_soporte");
    reveal_strlit("24_notificador_telegram");
    reveal_strlit("25_generador_facturas");
    reveal_strlit("26_portal_clientes");
    reveal_strlit("27_api_integration_hub");
    reveal_strlit("28_integracion_phone_sms");
    reveal_strlit("29_inventario_custom");
    reveal_strlit("30_integracion_phone_call");
    assert("01_dashboard_metricas"@.len() == 21);
    assert("02_monitor_sla"@.len() == 14);
    assert("03_exportador_datos"@.len() == 19);
    assert("04_reportes_programados"@.len() == 23);
    assert("05_hub_integraciones"@.len() == 20);
    assert("06_gestor_tickets"@.len() == 17);
    assert("07_formulario_contacto"@.len() == 22);
    assert("08_buscador_avanzado"@.len() == 20);
    assert("09_chatbot_inteligente"@.len() == 22);
    assert("10_sistema_encuestas"@.len() == 20);
    assert("11_gestor_conocimiento"@.len() == 22);
    assert("12_monitor_chat"@.len() == 15);
    assert("13_admin_workflows"@.len() == 18);
    assert("14_gestor_cupones"@.len() == 17);
    assert("15_dashboard_agentes"@.len() == 20);
    assert("16_reporte_satisfaccion"@.len() == 23);
    assert("17_integracion_email"@.len() == 20);
    assert("18_gestor_notificaciones"@.len() == 24);
    assert("19_monitor_rendimiento"@.len() == 22);
    assert("20_panel_configuracion"@.len() == 22);
    assert("21_monitor_red_snmp"@.len() == 19);
    assert("22_receptor_traps_snmp"@.len() == 22);
    assert("23_bot_telegram_soporte"@.len() == 23);
    assert("24_notificador_telegram"@.len() == 23);
    assert("25_generador_facturas"@.len() == 21);
    assert("26_portal_clientes"@.len() == 18);
    assert("27_api_integration_hub"@.len() == 22);
    assert("28_integracion_phone_sms"@.len() == 24);
    assert("29_inventario_custom"@.len() == 20);
    assert("30_integracion_phone_call"@.len() == 25);
    assert("01_dashboard_metricas"@[0] != "25_generador_facturas"@[0]);
    assert("03_exportador_datos"@[0] != "21_monitor_red_snmp"@[0]);
    assert("04_reportes_programados"@[0] != "16_reporte_satisfaccion"@[0]);
    assert("04_reportes_programados"@[0] != "23_bot_telegram_soporte"@[0]);
    assert("04_reportes_programados"@[0] != "24_notificador_telegram"@[0]);
    assert("05_hub_integraciones"@[1] != "08_buscador_avanzado"@[1]);
    assert("05_hub_integraciones"@[0] != "10_sistema_encuestas"@[0]);
    assert("05_hub_integraciones"@[0] != "15_dashboard_agentes"@[0]);
    assert("05_hub_integraciones"@[0] != "17_integracion_email"@[0]);
    assert("05_hub_integraciones"@[0] != "29_inventario_custom"@[0]);
    assert("06_gestor_tickets"@[0] != "14_gestor_cupones"@[0]);
    assert("07_formulario_contacto"@[1] != "09_chatbot_inteligente"@[1]);
    assert("07_formulario_contacto"@[0] != "11_gestor_conocimiento"@[0]);
    assert("07_formulario_contacto"@[0] != "19_monitor_rendimiento"@[0]);
    assert("07_formulario_contacto"@[0] != "20_panel_configuracion"@[0]);
    assert("07_formulario_contacto"@[0] != "22_receptor_traps_snmp"@[0]);
    assert("07_formulario_contacto"@[0] != "27_api_integration_hub"@[0]);
    assert("08_buscador_avanzado"@[0] != "10_sistema_encuestas"@[0]);
    assert("08_buscador_avanzado"@[0] != "15_dashboard_agentes"@[0]);
    assert("08_buscador_avanzado"@[0] != "17_integracion_email"@[0]);
    assert("08_buscador_avanzado"@[0] != "29_inventario_custom"@[0]);
    assert("09_chatbot_inteligente"@[0] != "11_gestor_conocimiento"@[0]);
    assert("09_chatbot_inteligente"@[0] != "19_monitor_rendimiento"@[0]);
    assert("09_chatbot_inteligente"@[0] != "20_panel_configuracion"@[0]);
    assert("09_chatbot_inteligente"@[0] != "22_receptor_traps_snmp"@[0]);
    assert("09_chatbot_inteligente"@[0] != "27_api_integration_hub"@[0]);
    assert("10_sistema_encuestas"@[1] != "15_dashboard_agentes"@[1]);
    assert("10_sistema_encuestas"@[1] != "17_integracion_email"@[1]);
    assert("10_sistema_encuestas"@[0] != "29_inventario_custom"@[0]);
    assert("11_gestor_conocimiento"@[1] != "19_monitor_rendimiento"@[1]);
    assert("11_gestor_conocimiento"@[0] != "20_panel_configuracion"@[0]);
    assert("11_gestor_conocimiento"@[0] != "22_receptor_traps_snmp"@[0]);
    assert("11_gestor_conocimiento"@[0] != "27_api_integration_hub"@[0]);
    assert("13_admin_workflows"@[0] != "26_portal_clientes"@[0]);
    assert("15_dashboard_agentes"@[1] != "17_integracion_email"@[1]);
    assert("15_dashboard_agentes"@[0] != "29_inventario_custom"@[0]);
    assert("16_reporte_satisfaccion"@[0] != "23_bot_telegram_soporte"@[0]);
    assert("16_reporte_satisfaccion"@[0] != "24_notificador_telegram"@[0]);
    assert("17_integracion_email"@[0] != "29_inventario_custom"@[0]);
    assert("18_gestor_notificaciones"@[0] != "28_integracion_phone_sms"@[0]);
    assert("19_monitor_rendimiento"@[0] != "20_panel_configuracion"@[0]);
    assert("19_monitor_rendimiento"@[0] != "22_receptor_traps_snmp"@[0]);
    assert("19_monitor_rendimiento"@[0] != "27_api_integration_hub"@[0]);
    assert("20_panel_configuracion"@[1] != "22_receptor_traps_snmp"@[1]);
    assert("20_panel_configuracion"@[1] != "27_api_integration_hub"@[1]);
    assert("22_receptor_traps_snmp"@[1] != "27_api_integration_hub"@[1]);
    assert("23_bot_telegram_soporte"@[1] != "24_notificador_telegram"@[1]);
}

/// The description shown next to an example's name in `ezer examples`.
pub fn get_example_description(name: &str) -> (r: String)
    ensures
        r@ == example_description(name@),
{
    let d: &str = if str_eq(name, "01_dashboard_metricas") {
        "Dashboard con métricas, charts y tablas"
    } else if str_eq(name, "02_monitor_sla") {
        "Monitor de SLA con alertas y eventos"
    } else if str_eq(name, "03_exportador_datos") {
        "Exportación de datos a CSV"
    } else if str_eq(name, "04_reportes_programados") {
        "Reportes automáticos con cron"
    } else if str_eq(name, "05_hub_integraciones") {
        "Integraciones con OAuth (Google, Slack, GitHub)"
    } else if str_eq(name, "06_gestor_tickets") {
        "Gestión de tickets con filtros"
    } else if str_eq(name, "07_formulario_contacto") {
        "Formulario completo con validación"
    } else if str_eq(name, "08_buscador_avanzado") {
        "Búsqueda multi-entidad"
    } else if str_eq(name, "09_chatbot_inteligente") {
        "Chatbot con IA y HTTP"
    } else if str_eq(name, "10_sistema_encuestas") {
        "Sistema de encuestas con analytics"
    } else if str_eq(name, "11_gestor_conocimiento") {
        "Gestión de base de conocimiento"
    } else if str_eq(name, "12_monitor_chat") {
        "Monitor de chat en vivo"
    } else if str_eq(name, "13_admin_workflows") {
        "Administración de workflows"
    } else if str_eq(name, "14_gestor_cupones") {
        "Gestión de cupones de descuento"
    } else if str_eq(name, "15_dashboard_agentes") {
        "Dashboard de rendimiento de agentes"
    } else if str_eq(name, "16_reporte_satisfaccion") {
        "Reportes de satisfacción del cliente"
    } else if str_eq(name, "17_integracion_email") {
        "Integración con email"
    } else if str_eq(name, "18_gestor_notificaciones") {
        "Gestor de notificaciones multi-canal"
    } else if str_eq(name, "19_monitor_rendimiento") {
        "Monitor de rendimiento del sistema"
    } else if str_eq(name, "20_panel_configuracion") {
        "Panel de configuración del sistema"
    } else if str_eq(name, "21_monitor_red_snmp") {
        "Monitoreo de red via SNMP/Zabbix"
    } else if str_eq(name, "22_receptor_traps_snmp") {
        "Receptor de traps SNMP"
    } else if str_eq(name, "23_bot_telegram_soporte") {
        "Bot de Telegram para soporte"
    } else if str_eq(name, "24_notificador_telegram") {
        "Notificaciones automáticas via Telegram"
    } else if str_eq(name, "25_generador_facturas") {
        "Generación de facturas y envío por email"
    } else if str_eq(name, "26_portal_clientes") {
        "Portal self-service para clientes"
    } else if str_eq(name, "27_api_integration_hub") {
        "Hub de integraciones con servicios externos"
    } else if str_eq(name, "28_integracion_phone_sms") {
        "Integración con Phone/SMS"
    } else if str_eq(name, "29_inventario_custom") {
        "Gestión de inventario con modelos de datos custom"
    } else if str_eq(name, "30_integracion_phone_call") {
        "Integración con Phone/Call (llamadas)"
    } else {
        "Ejemplo de plugin"
    };
    String::from_str(d)
}

/// The name of a directory entry: its text when it is valid Unicode, else only
/// the extension (when that part is valid Unicode).
pub enum FileName {
    Utf8(String),
    NonUtf8 { extension: Option<String> },
}

/// The mathematical value of a [`FileName`].
pub enum FileNameView {
    Utf8(Seq<char>),
    NonUtf8(Option<Seq<char>>),
}

impl View for FileName {
    type V = FileNameView;

    open spec fn view(&self) -> FileNameView {
        match self {
            FileName::Utf8(s) => FileNameView::Utf8(s@),
            FileName::NonUtf8 { extension } => FileNameView::NonUtf8(
                match extension {
                    Some(e) => Some(e@),
                    None => None,
                },
            ),
        }
    }
}

/// The views of a list of entry names.
pub open spec fn names_view(files: Seq<FileName>) -> Seq<FileNameView> {
    files.map_values(|f: FileName| f@)
}

/// The index of the last `c` in `s`, or -1.
pub open spec fn last_index_of(s: Seq<char>, c: char) -> int
    decreases s.len(),
{
    if s.len() == 0 {
        -1
    } else if s.last() == c {
        s.len() - 1
    } else {
        last_index_of(s.drop_last(), c)
    }
}

/// Whether the name is `..`, which has no extension.
pub open spec fn is_parent_name(name: Seq<char>) -> bool {
    name == seq!['.', '.']
}

/// `Path::extension` of a file name: the part after the last `.`; none when there
/// is no `.`, when the only `.` starts the name, or for `..`.
pub open spec fn extension_of(name: Seq<char>) -> Option<Seq<char>> {
    let i = last_index_of(name, '.');
    if is_parent_name(name) || i <= 0 {
        None
    } else {
        Some(name.subrange(i + 1, name.len() as int))
    }
}

/// `Path::file_stem` of a file name: the part before the last `.`, or the whole
/// name when it has no extension.
pub open spec fn stem_of(name: Seq<char>) -> Seq<char> {
    let i = last_index_of(name, '.');
    if is_parent_name(name) || i <= 0 {
        name
    } else {
        name.subrange(0, i)
    }
}

/// The extension of a directory entry, as text.
pub open spec fn entry_extension(f: FileNameView) -> Option<Seq<char>> {
    match f {
        FileNameView::Utf8(n) => extension_of(n),
        FileNameView::NonUtf8(e) => e,
    }
}

/// The stem of a directory entry, when it is valid Unicode. An entry whose name
/// is not valid Unicode and whose extension is has a stem that is not.
pub open spec fn entry_stem(f: FileNameView) -> Option<Seq<char>> {
    match f {
        FileNameView::Utf8(n) => Some(stem_of(n)),
        FileNameView::NonUtf8(_) => None,
    }
}

/// Whether a directory entry is a Rust source file (extension `rs`).
pub open spec fn is_rs_entry(f: FileNameView) -> bool {
    entry_extension(f) == Some(seq!['r', 's'])
}

/// Whether a directory entry is an example whose name starts with `wanted`.
pub open spec fn example_matches(f: FileNameView, wanted: Seq<char>) -> bool {
    is_rs_entry(f) && match entry_stem(f) {
        Some(s) => is_prefix(wanted, s),
        None => false,
    }
}

/// The index of the last `c` in `v`.
fn last_index(v: &Vec<char>, c: char) -> (r: Option<usize>)
    ensures
        match r {
            Some(i) => i == last_index_of(v@, c) && i < v.len(),
            None => last_index_of(v@, c) == -1,
        },
{
    let mut j: usize = v.len();
    assert(v@.subrange(0, v.len() as int) =~= v@);
    while j > 0 && v[j - 1] != c
        invariant
            j <= v.len(),
            last_index_of(v@, c) == last_index_of(v@.subrange(0, j as int), c),
        decreases j,
    {
        assert(v@.subrange(0, j as int).drop_last() =~= v@.subrange(0, j - 1));
        j = j - 1;
    }
    if j == 0 {
        None
    } else {
        assert(v@.subrange(0, j as int).last() == v@[j - 1]);
        Some(j - 1)
    }
}

/// Whether a name is `..`.
fn is_parent(v: &Vec<char>) -> (r: bool)
    ensures
        r == is_parent_name(v@),
{
    let r = v.len() == 2 && v[0] == '.' && v[1] == '.';
    assert(r ==> v@ =~= seq!['.', '.']);
    r
}

/// The extension of a directory entry (`Path::extension`), as text.
pub fn extension(f: &FileName) -> (r: Option<String>)
    ensures
        match r {
            Some(e) => entry_extension(f@) == Some(e@),
            None => entry_extension(f@) is None,
        },
{
    match f {
        FileName::Utf8(name) => {
            let v = chars_of(name.as_str());
            match last_index(&v, '.') {
                Some(i) => {
                    if is_parent(&v) || i == 0 {
                        None
                    } else {
                        let mut s = String::new();
                        push_range(&mut s, &v, i + 1, v.len());
                        Some(s)
                    }
                },
                None => None,
            }
        },
        FileName::NonUtf8 { extension } => match extension {
            Some(e) => Some(e.clone()),
            None => None,
        },
    }
}

/// The stem of a directory entry (`Path::file_stem` then `to_str`).
pub fn stem(f: &FileName) -> (r: Option<String>)
    ensures
        match r {
            Some(t) => entry_stem(f@) == Some(t@),
            None => entry_stem(f@) is None,
        },
{
    match f {
        FileName::Utf8(name) => {
            let v = chars_of(name.as_str());
            match last_index(&v, '.') {
                Some(i) => {
                    if is_parent(&v) || i == 0 {
                        Some(name.clone())
                    } else {
                        let mut s = String::new();
                        push_range(&mut s, &v, 0, i);
                        Some(s)
                    }
                },
                None => Some(name.clone()),
            }
        },
        FileName::NonUtf8 { .. } => None,
    }
}

/// Whether a directory entry has the given extension.
pub fn has_extension(f: &FileName, ext: &str) -> (r: bool)
    ensures
        r == (entry_extension(f@) == Some(ext@)),
{
    match extension(f) {
        Some(e) => str_eq(e.as_str(), ext),
        None => false,
    }
}

/// Whether a directory entry is an example whose name starts with `wanted`.
pub fn matches_example(f: &FileName, wanted: &str) -> (r: bool)
    ensures
        r == example_matches(f@, wanted@),
{
    proof {
        reveal_strlit("rs");
    }
    if !has_extension(f, "rs") {
        assert("rs"@ =~= seq!['r', 's']);
        return false;
    }
    assert("rs"@ =~= seq!['r', 's']);
    match stem(f) {
        Some(s) => {
            let sv = chars_of(s.as_str());
            let wv = chars_of(wanted);
            has_prefix(&sv, &wv)
        },
        None => false,
    }
}

/// The example that a name given on the command line picks: the first Rust
/// source file, in directory order, whose stem starts with the name (an exact
/// name is such a prefix too).
pub fn find_example(files: &Vec<FileName>, wanted: &str) -> (r: Option<usize>)
    ensures
        match r {
            Some(i) => {
                &&& i < files.len()
                &&& example_matches(files@[i as int]@, wanted@)
                &&& forall|j: int| 0 <= j < i ==> !example_matches(#[trigger] files@[j]@, wanted@)
            },
            None => forall|j: int| 0 <= j < files.len() ==> !example_matches(#[trigger] files@[j]@, wanted@),
        },
{
    let mut i: usize = 0;
    while i < files.len()
        invariant
            i <= files.len(),
            forall|j: int| 0 <= j < i ==> !example_matches(#[trigger] files@[j]@, wanted@),
        decreases files.len() - i,
    {
        if matches_example(&files[i], wanted) {
            return Some(i);
        }
        i = i + 1;
    }
    None
}

/// The first `.wasm` file among directory entries, in directory order.
pub fn find_wasm(files: &Vec<FileName>) -> (r: Option<usize>)
    ensures
        match r {
            Some(i) => {
                &&& i < files.len()
                &&& entry_extension(files@[i as int]@) == Some("wasm"@)
                &&& forall|j: int| 0 <= j < i ==> entry_extension(#[trigger] files@[j]@) != Some("wasm"@)
            },
            None => forall|j: int| 0 <= j < files.len() ==> entry_extension(#[trigger] files@[j]@) != Some("wasm"@),
        },
{
    let mut i: usize = 0;
    while i < files.len()
        invariant
            i <= files.len(),
            forall|j: int| 0 <= j < i ==> entry_extension(#[trigger] files@[j]@) != Some("wasm"@),
        decreases files.len() - i,
    {
        if has_extension(&files[i], "wasm") {
            return Some(i);
        }
        i = i + 1;
    }
    None
}

/// The name under which an example is listed: its stem, or `?`.
pub open spec fn listing_name(f: FileNameView) -> Seq<char> {
    match entry_stem(f) {
        Some(s) => s,
        None => "?"@,
    }
}

/// The lines of `ezer examples`: each Rust source file, in directory order, with
/// its name and description.
pub open spec fn example_listing_of(files: Seq<FileNameView>) -> Seq<(Seq<char>, Seq<char>)>
    decreases files.len(),
{
    if files.len() == 0 {
        seq![]
    } else {
        let rest = example_listing_of(files.drop_last());
        let f = files.last();
        if is_rs_entry(f) {
            rest.push((listing_name(f), example_description(listing_name(f))))
        } else {
            rest
        }
    }
}

/// The name and description of each example among the directory entries.
pub fn example_listing(files: &Vec<FileName>) -> (r: Vec<(String, String)>)
    ensures
        r@.map_values(|l: (String, String)| (l.0@, l.1@)) == example_listing_of(names_view(files@)),
{
    let mut out: Vec<(String, String)> = Vec::new();
    let mut i: usize = 0;
    proof {
        reveal_strlit("rs");
        assert(names_view(files@).take(0) =~= Seq::<FileNameView>::empty());
    }
    while i < files.len()
        invariant
            i <= files.len(),
            "rs"@ == seq!['r', 's'],
            out@.map_values(|l: (String, String)| (l.0@, l.1@)) == example_listing_of(
                names_view(files@).take(i as int),
            ),
        decreases files.len() - i,
    {
        let ghost before = out@;
        assert(names_view(files@).take(i + 1).drop_last() =~= names_view(files@).take(i as int));
        assert(names_view(files@).take(i + 1).last() == files@[i as int]@);
        if has_extension(&files[i], "rs") {
            let name = match stem(&files[i]) {
                Some(s) => s,
                None => String::from_str("?"),
            };
            let description = get_example_description(name.as_str());
            out.push((name, description));
            assert(out@.map_values(|l: (String, String)| (l.0@, l.1@)) =~= before.map_values(
                |l: (String, String)| (l.0@, l.1@),
            ).push((name@, description@)));
        }
        i = i + 1;
    }
    assert(names_view(files@).take(files.len() as int) =~= names_view(files@));
    out
}

/// The error of `ezer examples <name>` when no example matches.
pub fn example_not_found(name: &str) -> (r: String)
    ensures
        r@ == "No se encontró el ejemplo '"@ + name@ + "'"@,
{
    let mut s = String::from_str("No se encontró el ejemplo '");
    s.append(name);
    s.append("'");
    s
}

/// The error of `ezer init --example <name>` when no example matches.
pub fn init_example_not_found(name: &str) -> (r: String)
    ensures
        r@ == "No se encontró el ejemplo '"@ + name@
            + "'. Usa 'ezer examples' para ver los disponibles."@,
{
    let mut s = String::from_str("No se encontró el ejemplo '");
    s.append(name);
    s.append("'. Usa 'ezer examples' para ver los disponibles.");
    s
}

} // verus!
