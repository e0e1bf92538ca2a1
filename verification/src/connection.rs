//! Connection settings and the queries that the server runs on the database.
use crate::protocol::{
    ConnectionOptions, Global, Options, Production, ProductionOperation, ProductionProcess,
    ProductionService,
};
use once_cell::sync::OnceCell;
use vstd::prelude::*;

verus! {

#[verifier::external_type_specification]
#[verifier::external_body]
#[verifier::reject_recursive_types(T)]
pub struct ExOnceCell<T>(OnceCell<T>);

/// Where and as whom to reach the server, once the configuration names it all.
#[derive(Debug, PartialEq, Eq, Clone)]
pub struct ConnectionSettings {
    pub host: String,
    pub port: u16,
    pub super_port: u16,
    pub ns: String,
    pub username: String,
    pub password: String,
}

/// The settings as plain values: host, port, super server port, namespace,
/// user name and password.
pub open spec fn settings_view(s: ConnectionSettings) -> (Seq<char>, u16, u16, Seq<char>, Seq<char>, Seq<char>) {
    (s.host@, s.port, s.super_port, s.ns@, s.username@, s.password@)
}

/// What a settings cell holds: nothing, or the one value set in it.
pub uninterp spec fn settings_cell(cell: OnceCell<ConnectionSettings>) -> Seq<(Seq<char>, u16, u16, Seq<char>, Seq<char>, Seq<char>)>;

/// Calls `once_cell::sync::OnceCell::new`: the new cell is empty.
#[verifier::external_body]
fn new_settings_cell() -> (res: OnceCell<ConnectionSettings>)
    ensures
        settings_cell(res) == Seq::<(Seq<char>, u16, u16, Seq<char>, Seq<char>, Seq<char>)>::empty(),
{
    OnceCell::new()
}

/// Calls `once_cell::sync::OnceCell::set`: an empty cell takes the value and
/// `Ok` comes back; a full cell keeps its value and hands the new one back in
/// `Err`.
#[verifier::external_body]
fn set_settings_cell(
    cell: &mut OnceCell<ConnectionSettings>,
    value: ConnectionSettings,
) -> (res: Result<(), ConnectionSettings>)
    ensures
        settings_cell(*old(cell)).len() == 0 ==> res is Ok && settings_cell(*final(cell)) == seq![settings_view(value)],
        settings_cell(*old(cell)).len() != 0 ==> (res matches Err(v) && v == value),
        settings_cell(*old(cell)).len() != 0 ==> settings_cell(*final(cell)) == settings_cell(*old(cell)),
{
    cell.set(value)
}

/// Calls `once_cell::sync::OnceCell::get`: `None` for an empty cell, else the
/// value it holds.
#[verifier::external_body]
fn get_settings_cell(cell: &OnceCell<ConnectionSettings>) -> (res: Option<&ConnectionSettings>)
    ensures
        res is None <==> settings_cell(*cell).len() == 0,
        res matches Some(s) ==> settings_cell(*cell) == seq![settings_view(*s)],
{
    cell.get()
}

/// The connection options of a configuration; all left out where the
/// configuration has none.
pub open spec fn connection_options_of(options: Options) -> ConnectionOptions {
    match options.objectscript {
        Some(o) => match o.conn {
            Some(c) => c,
            None => no_connection_options(),
        },
        None => no_connection_options(),
    }
}

pub open spec fn no_connection_options() -> ConnectionOptions {
    ConnectionOptions {
        active: None,
        host: None,
        port: None,
        super_port: None,
        ns: None,
        username: None,
        password: None,
    }
}

/// The text of an optional string; empty where it is left out.
pub open spec fn text_or_empty(s: Option<String>) -> Seq<char> {
    match s {
        Some(t) => t@,
        None => Seq::empty(),
    }
}

/// A configuration is active when it is not switched off and names a host, a
/// user, a password, a namespace and a super server port other than 0.
pub open spec fn options_active(c: ConnectionOptions) -> bool {
    &&& c.active.unwrap_or(true)
    &&& text_or_empty(c.host).len() > 0
    &&& text_or_empty(c.username).len() > 0
    &&& text_or_empty(c.password).len() > 0
    &&& text_or_empty(c.ns).len() > 0
    &&& c.super_port.unwrap_or(0) > 0
}

/// The settings that options name, with an empty text or 0 for what they leave out.
pub open spec fn settings_of_options(c: ConnectionOptions) -> (Seq<char>, u16, u16, Seq<char>, Seq<char>, Seq<char>) {
    (
        text_or_empty(c.host),
        c.port.unwrap_or(0),
        c.super_port.unwrap_or(0),
        text_or_empty(c.ns),
        text_or_empty(c.username),
        text_or_empty(c.password),
    )
}

/// What a reparse does to the settings: the first active configuration is
/// kept, and later ones change nothing.
pub open spec fn reparsed(
    before: Seq<(Seq<char>, u16, u16, Seq<char>, Seq<char>, Seq<char>)>,
    options: Options,
) -> Seq<(Seq<char>, u16, u16, Seq<char>, Seq<char>, Seq<char>)> {
    let c = connection_options_of(options);
    if before.len() == 0 && options_active(c) {
        seq![settings_of_options(c)]
    } else {
        before
    }
}

fn text_of(s: &Option<String>) -> (res: String)
    ensures
        res@ == text_or_empty(*s),
{
    match s {
        Some(t) => t.clone(),
        None => String::new(),
    }
}

/// The server that the language server talks to.
#[derive(Debug, PartialEq, Eq, Clone)]
pub struct ConnectionTarget {
    pub host: String,
    pub super_port: u16,
    pub ns: String,
    pub username: String,
    pub password: String,
}

/// Holds the connection settings that the configuration names.
pub struct ConnectionManager {
    connection_settings: OnceCell<ConnectionSettings>,
}

impl ConnectionManager {
    /// The settings held, as plain values: empty, or the one set.
    pub closed spec fn settings(&self) -> Seq<(Seq<char>, u16, u16, Seq<char>, Seq<char>, Seq<char>)> {
        settings_cell(self.connection_settings)
    }

    /// A manager that holds no settings yet.
    pub fn new() -> (res: Self)
        ensures
            res.settings().len() == 0,
    {
        Self { connection_settings: new_settings_cell() }
    }

    /// Reads the connection options of `options`; where they are active and no
    /// settings are held yet, they become the settings.
    pub fn reparse(&mut self, options: &Options)
        ensures
            final(self).settings() == reparsed(old(self).settings(), *options),
    {
        let ghost c = connection_options_of(*options);
        let conn: Option<&ConnectionOptions> = match &options.objectscript {
            Some(o) => match &o.conn {
                Some(c) => Some(c),
                None => None,
            },
            None => None,
        };
        let (host, port, super_port, username, password, ns, active_flag) = match conn {
            Some(c) => (
                text_of(&c.host),
                c.port.unwrap_or(0),
                c.super_port.unwrap_or(0),
                text_of(&c.username),
                text_of(&c.password),
                text_of(&c.ns),
                c.active.unwrap_or(true),
            ),
            None => (String::new(), 0, 0, String::new(), String::new(), String::new(), true),
        };
        let active = active_flag && !host.as_str().is_empty() && !username.as_str().is_empty()
            && !password.as_str().is_empty() && !ns.as_str().is_empty() && super_port > 0;
        if active {
            let settings = ConnectionSettings { host, port, super_port, ns, username, password };
            let _ = set_settings_cell(&mut self.connection_settings, settings);
        }
    }

    /// The settings held, if any.
    pub fn connection_settings(&self) -> (res: Option<&ConnectionSettings>)
        ensures
            res is None <==> self.settings().len() == 0,
            res matches Some(s) ==> self.settings() == seq![settings_view(*s)],
    {
        get_settings_cell(&self.connection_settings)
    }

    /// The server to connect to: the local one, in the `USER` namespace, as
    /// `_SYSTEM`. The settings are not consulted.
    pub fn connection_target(&self) -> (res: ConnectionTarget)
        ensures
            res.host@ == "localhost"@,
            res.super_port == 1972,
            res.ns@ == "USER"@,
            res.username@ == "_SYSTEM"@,
            res.password@ == "SYS"@,
    {
        ConnectionTarget {
            host: String::from_str("localhost"),
            super_port: 1972,
            ns: String::from_str("USER"),
            username: String::from_str("_SYSTEM"),
            password: String::from_str("SYS"),
        }
    }
}

/// Law: once settings are held, no later configuration changes them.
pub proof fn law_settings_are_set_once(
    held: Seq<(Seq<char>, u16, u16, Seq<char>, Seq<char>, Seq<char>)>,
    options: Options,
)
    requires
        held.len() > 0,
    ensures
        reparsed(held, options) == held,
{
}

/// Law: from no settings, an active configuration is taken whole, and an
/// inactive one leaves none.
pub proof fn law_first_active_configuration_wins(options: Options)
    ensures
        options_active(connection_options_of(options)) ==> reparsed(Seq::empty(), options)
            == seq![settings_of_options(connection_options_of(options))],
        !options_active(connection_options_of(options)) ==> reparsed(Seq::empty(), options).len() == 0,
{
}

/// The status text of a production state number.
pub open spec fn production_state_label(state: i32) -> Seq<char> {
    if state == 1 {
        "Running"@
    } else if state == 2 {
        "Stopped"@
    } else if state == 3 {
        "Suspended"@
    } else if state == 4 {
        "Troubled"@
    } else {
        "Unknown"@
    }
}

/// The status text of a production state number.
pub fn production_state_name(state: i32) -> (res: &'static str)
    ensures
        res@ == production_state_label(state),
{
    match state {
        1 => "Running",
        2 => "Stopped",
        3 => "Suspended",
        4 => "Troubled",
        _ => "Unknown",
    }
}

/// The query that lists the productions that can run.
pub fn productions_query() -> (res: &'static str)
    ensures
        res@ == "select Name from %Dictionary.ClassDefinition where super = 'Ens.Production' and abstract<>1"@,
{
    "select Name from %Dictionary.ClassDefinition where super = 'Ens.Production' and abstract<>1"
}

/// The productions named by `ids`: the one that is `current` has the status of
/// `state`, the others are stopped.
pub fn productions_from_rows(ids: &Vec<String>, current: &str, state: i32) -> (res: Vec<Production>)
    ensures
        res.len() == ids.len(),
        forall|i: int| 0 <= i < ids.len() ==> (#[trigger] res[i]).id@ == ids[i]@
            && res[i].status@ == (if ids[i]@ == current@ { production_state_label(state) } else { "Stopped"@ }),
{
    let current_status = production_state_name(state);
    let current_id = String::from_str(current);
    let mut list: Vec<Production> = Vec::new();
    let n = ids.len();
    for i in 0..n
        invariant
            n == ids.len(),
            current_status@ == production_state_label(state),
            current_id@ == current@,
            list.len() == i,
            forall|k: int| 0 <= k < i ==> (#[trigger] list[k]).id@ == ids[k]@
                && list[k].status@ == (if ids[k]@ == current@ { production_state_label(state) } else { "Stopped"@ }),
    {
        let id = ids[i].clone();
        let status = if id == current_id {
            String::from_str(current_status)
        } else {
            String::from_str("Stopped")
        };
        list.push(Production { id, status });
    }
    list
}

/// The query that lists the items of `production` whose class extends `superclass`.
pub open spec fn production_items_query(production: Seq<char>, superclass: Seq<char>) -> Seq<char> {
    "select name from ens_config.item where production='"@ + production
        + "'\n        and \n        classname in (select name from %dictionary.classdefinition where super='"@
        + superclass + "')"@
}

/// Law: the query holds the production's name verbatim, right after the
/// opening quote of the `production='` test, and the superclass verbatim in the
/// `super='` test; nothing is cut or added around them.
pub proof fn law_items_query_holds_names(production: Seq<char>, superclass: Seq<char>)
    ensures
        ({
            let q = production_items_query(production, superclass);
            let head = "select name from ens_config.item where production='"@;
            let middle = "'\n        and \n        classname in (select name from %dictionary.classdefinition where super='"@;
            let h = head.len() as int;
            let n = production.len() as int;
            let m = middle.len() as int;
            &&& q.len() == h + n + m + superclass.len() + "')"@.len()
            &&& q.take(h) == head
            &&& q.subrange(h, h + n) == production
            &&& q.subrange(h + n, h + n + m) == middle
            &&& q.subrange(h + n + m, h + n + m + superclass.len()) == superclass
        }),
{
    let q = production_items_query(production, superclass);
    let head = "select name from ens_config.item where production='"@;
    let middle = "'\n        and \n        classname in (select name from %dictionary.classdefinition where super='"@;
    let h = head.len() as int;
    let n = production.len() as int;
    let m = middle.len() as int;
    assert(q.take(h) =~= head);
    assert(q.subrange(h, h + n) =~= production);
    assert(q.subrange(h + n, h + n + m) =~= middle);
    assert(q.subrange(h + n + m, h + n + m + superclass.len()) =~= superclass);
}

/// Law: two productions get the same query only when they are the same.
pub proof fn law_items_query_distinguishes_productions(first: Seq<char>, second: Seq<char>, superclass: Seq<char>)
    requires
        production_items_query(first, superclass) == production_items_query(second, superclass),
    ensures
        first == second,
{
    law_items_query_holds_names(first, superclass);
    law_items_query_holds_names(second, superclass);
    let head = "select name from ens_config.item where production='"@;
    assert(first.len() == second.len());
    let h = head.len() as int;
    assert(first == production_items_query(first, superclass).subrange(h, h + first.len()));
}

fn items_query(production: &str, superclass: &str) -> (res: String)
    ensures
        res@ == production_items_query(production@, superclass@),
{
    let mut query = String::from_str("select name from ens_config.item where production='");
    query.append(production);
    query.append(
        "'\n        and \n        classname in (select name from %dictionary.classdefinition where super='",
    );
    query.append(superclass);
    query.append("')");
    query
}

/// The query that lists the business services of `production`.
pub fn production_services_query(production: &str) -> (res: String)
    ensures
        res@ == production_items_query(production@, "Ens.BusinessService"@),
{
    items_query(production, "Ens.BusinessService")
}

/// The query that lists the business operations of `production`.
pub fn production_operations_query(production: &str) -> (res: String)
    ensures
        res@ == production_items_query(production@, "Ens.BusinessOperation"@),
{
    items_query(production, "Ens.BusinessOperation")
}

/// The query that lists the business processes of `production`.
pub fn production_processes_query(production: &str) -> (res: String)
    ensures
        res@ == production_items_query(production@, "Ens.BusinessProcess"@),
{
    items_query(production, "Ens.BusinessProcess")
}

/// The query that lists the globals of the namespace, each with its leading `^`.
pub fn globals_query() -> (res: &'static str)
    ensures
        res@ == "SELECT DISTINCT '^' || $piece(name,'(',1) Name from %SYS.GlobalQuery_NamespaceList()"@,
{
    "SELECT DISTINCT '^' || $piece(name,'(',1) Name from %SYS.GlobalQuery_NamespaceList()"
}

/// The business services named by `ids`, in order.
pub fn services_from_rows(ids: &Vec<String>) -> (res: Vec<ProductionService>)
    ensures
        res.len() == ids.len(),
        forall|i: int| 0 <= i < ids.len() ==> #[trigger] res[i].id@ == ids[i]@,
{
    let mut list: Vec<ProductionService> = Vec::new();
    for i in 0..ids.len()
        invariant
            list.len() == i,
            forall|k: int| 0 <= k < i ==> #[trigger] list[k].id@ == ids[k]@,
    {
        list.push(ProductionService { id: ids[i].clone() });
    }
    list
}

/// The business operations named by `ids`, in order.
pub fn operations_from_rows(ids: &Vec<String>) -> (res: Vec<ProductionOperation>)
    ensures
        res.len() == ids.len(),
        forall|i: int| 0 <= i < ids.len() ==> #[trigger] res[i].id@ == ids[i]@,
{
    let mut list: Vec<ProductionOperation> = Vec::new();
    for i in 0..ids.len()
        invariant
            list.len() == i,
            forall|k: int| 0 <= k < i ==> #[trigger] list[k].id@ == ids[k]@,
    {
        list.push(ProductionOperation { id: ids[i].clone() });
    }
    list
}

/// The business processes named by `ids`, in order.
pub fn processes_from_rows(ids: &Vec<String>) -> (res: Vec<ProductionProcess>)
    ensures
        res.len() == ids.len(),
        forall|i: int| 0 <= i < ids.len() ==> #[trigger] res[i].id@ == ids[i]@,
{
    let mut list: Vec<ProductionProcess> = Vec::new();
    for i in 0..ids.len()
        invariant
            list.len() == i,
            forall|k: int| 0 <= k < i ==> #[trigger] list[k].id@ == ids[k]@,
    {
        list.push(ProductionProcess { id: ids[i].clone() });
    }
    list
}

/// The globals named by `names`, in order.
pub fn globals_from_rows(names: &Vec<String>) -> (res: Vec<Global>)
    ensures
        res.len() == names.len(),
        forall|i: int| 0 <= i < names.len() ==> #[trigger] res[i].name@ == names[i]@,
{
    let mut list: Vec<Global> = Vec::new();
    for i in 0..names.len()
        invariant
            list.len() == i,
            forall|k: int| 0 <= k < i ==> #[trigger] list[k].name@ == names[k]@,
    {
        list.push(Global { name: names[i].clone() });
    }
    list
}

/// Law: from no settings, a configuration is taken exactly when it has a
/// connection section that is not switched off and that names a non-empty host,
/// user name, password and namespace and a super server port above 0. What is
/// then held is those values, with port 0 where the port is left out.
pub proof fn law_settings_need_complete_configuration(options: Options)
    ensures
        reparsed(Seq::empty(), options).len() <= 1,
        reparsed(Seq::empty(), options).len() == 1 <==> ({
            &&& options.objectscript matches Some(o)
            &&& o.conn matches Some(c)
            &&& c.active != Some(false)
            &&& c.host matches Some(host) && host@.len() > 0
            &&& c.username matches Some(user) && user@.len() > 0
            &&& c.password matches Some(password) && password@.len() > 0
            &&& c.ns matches Some(ns) && ns@.len() > 0
            &&& c.super_port matches Some(super_port) && super_port > 0
        }),
        reparsed(Seq::empty(), options).len() == 1 ==> ({
            let c = options.objectscript->0.conn->0;
            let held = reparsed(Seq::empty(), options)[0];
            &&& held.0 == c.host->0@
            &&& held.1 == (if c.port is Some { c.port->0 } else { 0u16 })
            &&& held.2 == c.super_port->0
            &&& held.2 > 0
            &&& held.3 == c.ns->0@
            &&& held.4 == c.username->0@
            &&& held.5 == c.password->0@
        }),
{
}

} // verus!
