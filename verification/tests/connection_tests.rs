use intersystems_ls::connection::{
    globals_from_rows, globals_query, operations_from_rows, processes_from_rows,
    production_operations_query, production_processes_query, production_services_query,
    production_state_name, productions_from_rows, productions_query, services_from_rows,
    ConnectionManager, ConnectionSettings,
};
use intersystems_ls::protocol::{ConnectionOptions, ObjectScriptOptions, Options};

fn options(conn: ConnectionOptions) -> Options {
    Options { objectscript: Some(ObjectScriptOptions { conn: Some(conn) }) }
}

fn full() -> ConnectionOptions {
    ConnectionOptions {
        active: None,
        host: Some("db.local".to_string()),
        port: Some(52773),
        super_port: Some(1972),
        ns: Some("USER".to_string()),
        username: Some("admin".to_string()),
        password: Some("secret".to_string()),
    }
}

#[test]
fn new_manager_holds_no_settings() {
    assert!(ConnectionManager::new().connection_settings().is_none());
}

#[test]
fn reparse_takes_active_configuration() {
    let mut m = ConnectionManager::new();
    m.reparse(&options(full()));
    assert_eq!(
        m.connection_settings(),
        Some(&ConnectionSettings {
            host: "db.local".to_string(),
            port: 52773,
            super_port: 1972,
            ns: "USER".to_string(),
            username: "admin".to_string(),
            password: "secret".to_string(),
        })
    );
}

#[test]
fn reparse_keeps_first_settings() {
    let mut m = ConnectionManager::new();
    m.reparse(&options(full()));
    let mut other = full();
    other.host = Some("elsewhere".to_string());
    m.reparse(&options(other));
    assert_eq!(m.connection_settings().unwrap().host, "db.local");
}

#[test]
fn reparse_ignores_incomplete_configuration() {
    for change in 0..6 {
        let mut c = full();
        match change {
            0 => c.host = None,
            1 => c.username = Some(String::new()),
            2 => c.password = None,
            3 => c.ns = None,
            4 => c.super_port = Some(0),
            _ => c.active = Some(false),
        }
        let mut m = ConnectionManager::new();
        m.reparse(&options(c));
        assert!(m.connection_settings().is_none(), "case {}", change);
    }
}

#[test]
fn reparse_ignores_missing_sections() {
    let mut m = ConnectionManager::new();
    m.reparse(&Options::default());
    m.reparse(&Options { objectscript: Some(ObjectScriptOptions { conn: None }) });
    assert!(m.connection_settings().is_none());
}

#[test]
fn reparse_defaults_port_to_zero() {
    let mut c = full();
    c.port = None;
    c.active = Some(true);
    let mut m = ConnectionManager::new();
    m.reparse(&options(c));
    assert_eq!(m.connection_settings().unwrap().port, 0);
}

#[test]
fn connection_target_is_local_user_namespace() {
    let t = ConnectionManager::new().connection_target();
    assert_eq!(t.host, "localhost");
    assert_eq!(t.super_port, 1972);
    assert_eq!(t.ns, "USER");
    assert_eq!(t.username, "_SYSTEM");
    assert_eq!(t.password, "SYS");
}

#[test]
fn production_state_names() {
    assert_eq!(production_state_name(1), "Running");
    assert_eq!(production_state_name(2), "Stopped");
    assert_eq!(production_state_name(3), "Suspended");
    assert_eq!(production_state_name(4), "Troubled");
    assert_eq!(production_state_name(0), "Unknown");
    assert_eq!(production_state_name(5), "Unknown");
}

#[test]
fn productions_status_of_current_one() {
    let ids = vec!["Demo.A".to_string(), "Demo.B".to_string()];
    let list = productions_from_rows(&ids, "Demo.B", 4);
    assert_eq!(list.len(), 2);
    assert_eq!((list[0].id.as_str(), list[0].status.as_str()), ("Demo.A", "Stopped"));
    assert_eq!((list[1].id.as_str(), list[1].status.as_str()), ("Demo.B", "Troubled"));
    assert!(productions_from_rows(&Vec::new(), "x", 1).is_empty());
}

#[test]
fn queries_are_exact() {
    assert_eq!(
        productions_query(),
        "select Name from %Dictionary.ClassDefinition where super = 'Ens.Production' and abstract<>1"
    );
    assert_eq!(
        production_services_query("Demo.Prod"),
        "select name from ens_config.item where production='Demo.Prod'\n        and \n        classname in (select name from %dictionary.classdefinition where super='Ens.BusinessService')"
    );
    assert_eq!(
        production_operations_query("P"),
        "select name from ens_config.item where production='P'\n        and \n        classname in (select name from %dictionary.classdefinition where super='Ens.BusinessOperation')"
    );
    assert_eq!(
        production_processes_query(""),
        "select name from ens_config.item where production=''\n        and \n        classname in (select name from %dictionary.classdefinition where super='Ens.BusinessProcess')"
    );
    assert_eq!(
        globals_query(),
        "SELECT DISTINCT '^' || $piece(name,'(',1) Name from %SYS.GlobalQuery_NamespaceList()"
    );
}

#[test]
fn rows_become_items_in_order() {
    let ids = vec!["x".to_string(), "y".to_string()];
    let s: Vec<String> = services_from_rows(&ids).into_iter().map(|i| i.id).collect();
    let o: Vec<String> = operations_from_rows(&ids).into_iter().map(|i| i.id).collect();
    let p: Vec<String> = processes_from_rows(&ids).into_iter().map(|i| i.id).collect();
    let g: Vec<String> = globals_from_rows(&ids).into_iter().map(|i| i.name).collect();
    assert_eq!(s, ids);
    assert_eq!(o, ids);
    assert_eq!(p, ids);
    assert_eq!(g, ids);
}
