//! Configuration rules: what the TOML document or the command line must
//! hold, and the endpoint they describe.
//!
//! The surrounding binary reads the configuration file and the program
//! arguments; the rules here decide what they mean. The TOML text is
//! parsed by the `toml` crate behind a trusted wrapper that brings the
//! document over as plain key-value data; everything after that parse
//! is verified.

use vstd::prelude::*;

use crate::multiplex::{FixedPlexer, Plexer, SniMap, SniPlexer};

verus! {

/// Default per-connection ring buffer size in bytes.
pub const BUF_SIZE: usize = 1048576;

/// Hostname that the control API is reachable under once enabled.
pub const API_HOST: &'static str = "tnexus.net";

/// A TOML value brought over as plain data. Booleans, floats and
/// datetimes, which the configuration does not use, come over opaque.
pub enum ConfItem {
    Str(String),
    Int(i64),
    Arr(Vec<ConfItem>),
    Tab(Vec<(String, ConfItem)>),
    Other,
}

/// Why a configuration was rejected.
#[derive(Debug)]
pub enum ConfigError {
    /// Neither a configuration file nor the two positional arguments
    /// `listen_ip:port destination_ip:port` were given.
    Usage,
    /// The buffer size in the file is not a positive integer that fits
    /// the machine.
    BadBufsize,
    /// The file holds no `[[listen]]` array.
    NoListenSection,
    /// The `[[listen]]` array is empty.
    EmptyListen,
    /// The first `[[listen]]` entry is not a table.
    BadListenEntry,
    /// A required string attribute is missing; its name.
    MissingAttr(String),
    /// A value in the `[listen.multiplex]` table is not a string.
    BadSniMap,
}

/// The paths the control API needs: its key, its certificate, and the
/// one client certificate it accepts.
pub struct ApiConf {
    pub key: String,
    pub cert: String,
    pub authorized_cert: String,
}

/// What the proxy runs with: the listening endpoint, the buffer size,
/// the routing policy, and the control API's configuration if enabled.
pub struct Endpoint {
    /// Per-connection ring buffer size in bytes.
    pub bufsize: usize,
    /// The listening endpoint, `host:port`.
    pub listen: String,
    /// The routing policy.
    pub destination: Plexer,
    /// The control API to start, if configured.
    pub api: Option<ApiConf>,
}

/// Look a key up in a table's entries, first entry first. TOML tables
/// carry each key once, so the first binding is the binding.
pub open spec fn spec_table_get(entries: Seq<(String, ConfItem)>, key: Seq<char>) -> Option<
    ConfItem,
>
    decreases entries.len(),
{
    if entries.len() == 0 {
        None
    } else if entries[0].0@ == key {
        Some(entries[0].1)
    } else {
        spec_table_get(entries.drop_first(), key)
    }
}

/// The string a key is bound to, if it is bound to a string.
pub open spec fn spec_get_str(entries: Seq<(String, ConfItem)>, key: Seq<char>) -> Option<
    Seq<char>,
> {
    match spec_table_get(entries, key) {
        Some(ConfItem::Str(s)) => Some(s@),
        _ => None,
    }
}

/// Declares toml::Value, the parsed TOML tree, so the converter below
/// can take it; it stays opaque and nothing is assumed of it.
#[verifier::external_type_specification]
#[verifier::external_body]
pub struct ExTomlValue(toml::Value);

/// What parsing a TOML document yields: its top-level table brought
/// over as plain data, or nothing for text that is not well-formed
/// TOML.
pub uninterp spec fn toml_document_of(s: Seq<char>) -> Option<Seq<(String, ConfItem)>>;

/// Relies on toml::Value's shape alone: each variant is carried over,
/// strings and integers by value, arrays and tables entry for entry.
#[verifier::external_body]
fn conf_of_value(v: &toml::Value) -> ConfItem {
    match v {
        toml::Value::String(s) => ConfItem::Str(s.clone()),
        toml::Value::Integer(i) => ConfItem::Int(*i),
        toml::Value::Array(a) => ConfItem::Arr(a.iter().map(conf_of_value).collect()),
        toml::Value::Table(t) => ConfItem::Tab(
            t.iter().map(|(k, v)| (k.clone(), conf_of_value(v))).collect(),
        ),
        _ => ConfItem::Other,
    }
}

/// Relies on toml::Table::from_str, reached through str::parse: it
/// parses the text as a TOML document and yields the top-level table,
/// which `conf_of_value` brings over entry for entry.
#[verifier::external_body]
fn parse_toml_document(s: &str) -> (r: Option<Vec<(String, ConfItem)>>)
    ensures
        match r {
            Some(t) => toml_document_of(s@) == Some(t@),
            None => toml_document_of(s@) is None,
        },
{
    match s.parse::<toml::Table>() {
        Ok(t) => Some(t.into_iter().map(|(k, v)| (k, conf_of_value(&v))).collect()),
        Err(_) => None,
    }
}

/// Look a key up among a table's entries.
pub fn table_get<'a>(table: &'a Vec<(String, ConfItem)>, attr: &str) -> (r: Option<&'a ConfItem>)
    ensures
        match r {
            Some(v) => spec_table_get(table@, attr@) == Some(*v),
            None => spec_table_get(table@, attr@) is None,
        },
{
    let key: String = attr.to_owned();
    let mut i: usize = 0;
    proof {
        assert(table@.skip(0) =~= table@);
    }
    while i < table.len()
        invariant
            i <= table@.len(),
            key@ == attr@,
            spec_table_get(table@, attr@) == spec_table_get(table@.skip(i as int), attr@),
        decreases table@.len() - i,
    {
        proof {
            assert(table@.skip(i as int).drop_first() =~= table@.skip(i + 1));
            assert(table@.skip(i as int)[0] == table@[i as int]);
        }
        if table[i].0 == key {
            return Some(&table[i].1);
        }
        i = i + 1;
    }
    proof {
        assert(table@.skip(table@.len() as int) =~= Seq::<(String, ConfItem)>::empty());
    }
    None
}

/// The string a key is bound to, if any.
pub fn get_str(attr: &str, table: &Vec<(String, ConfItem)>) -> (r: Option<String>)
    ensures
        match r {
            Some(s) => spec_get_str(table@, attr@) == Some(s@),
            None => spec_get_str(table@, attr@) is None,
        },
{
    match table_get(table, attr) {
        Some(ConfItem::Str(s)) => Some(s.clone()),
        _ => None,
    }
}

/// The string a key must be bound to; missing or not a string, the
/// configuration is rejected naming the key.
pub fn get_str_attr(attr: &str, table: &Vec<(String, ConfItem)>) -> (r: Result<String, ConfigError>)
    ensures
        match r {
            Ok(s) => spec_get_str(table@, attr@) == Some(s@),
            Err(e) => {
                &&& spec_get_str(table@, attr@) is None
                &&& e matches ConfigError::MissingAttr(a) && a@ == attr@
            },
        },
{
    match get_str(attr, table) {
        Some(s) => Ok(s),
        None => Err(ConfigError::MissingAttr(attr.to_owned())),
    }
}

/// Every value in the multiplex table is a string.
pub open spec fn spec_sni_map_ok(mt: Seq<(String, ConfItem)>) -> bool {
    forall|j: int| 0 <= j < mt.len() ==> #[trigger] mt[j].1 is Str
}

/// The routing table carries the multiplex table entry for entry.
pub open spec fn spec_sni_entries(
    mt: Seq<(String, ConfItem)>,
    m: Seq<(Seq<char>, Seq<char>)>,
) -> bool {
    &&& m.len() == mt.len()
    &&& forall|j: int|
        0 <= j < mt.len() ==> (#[trigger] mt[j].1 matches ConfItem::Str(s) && m[j] == (
            mt[j].0@,
            s@,
        ))
}

/// Build the SNI routing table from the multiplex table: every entry
/// binds a hostname to a backend address string; anything else rejects
/// the configuration.
pub fn get_sni_map(multiplex: &Vec<(String, ConfItem)>) -> (r: Result<SniMap, ConfigError>)
    ensures
        match r {
            Ok(m) => spec_sni_map_ok(multiplex@) && spec_sni_entries(multiplex@, m@),
            Err(e) => !spec_sni_map_ok(multiplex@) && e is BadSniMap,
        },
{
    let mut m = SniMap::new();
    let mut i: usize = 0;
    while i < multiplex.len()
        invariant
            i <= multiplex@.len(),
            m@.len() == i,
            forall|j: int|
                0 <= j < i ==> (#[trigger] multiplex@[j].1 matches ConfItem::Str(s) && m@[j]
                    == (multiplex@[j].0@, s@)),
        decreases multiplex@.len() - i,
    {
        match &multiplex[i].1 {
            ConfItem::Str(val) => {
                m.insert(multiplex[i].0.clone(), val.clone());
            },
            _ => {
                return Err(ConfigError::BadSniMap);
            },
        }
        i = i + 1;
    }
    Ok(m)
}

/// What the command-line fallback yields: with fewer than two
/// positional arguments the usage error, else a fixed policy from the
/// second argument listening on the first, with the default buffer
/// size and no control API.
pub open spec fn cmdline_post(args: Seq<String>, r: Result<Endpoint, ConfigError>) -> bool {
    if args.len() < 3 {
        r matches Err(e) && e is Usage
    } else {
        r matches Ok(ep) && {
            &&& ep.bufsize == BUF_SIZE
            &&& ep.listen@ == args[1]@
            &&& ep.destination matches Plexer::Fixed(fp) && fp.destination_addr@ == args[2]@
            &&& ep.api is None
        }
    }
}

/// The endpoint the two positional command-line arguments describe.
pub fn get_args(args: &Vec<String>) -> (r: Result<Endpoint, ConfigError>)
    ensures
        cmdline_post(args@, r),
{
    if args.len() < 3 {
        return Err(ConfigError::Usage);
    }
    Ok(
        Endpoint {
            bufsize: BUF_SIZE,
            listen: args[1].clone(),
            destination: Plexer::Fixed(FixedPlexer::new(args[2].as_str())),
            api: None,
        },
    )
}

/// What the SNI branch of a listen entry yields, given the listen table
/// and its multiplex table: the default backend is required, every
/// multiplex value must be a string, and an API key demands the
/// certificate attributes; the endpoint then routes by SNI.
pub open spec fn sni_listen_post(
    bufsize: int,
    t: Seq<(String, ConfItem)>,
    mt: Seq<(String, ConfItem)>,
    r: Result<Endpoint, ConfigError>,
) -> bool {
    if spec_get_str(t, "sni_missing"@) is None {
        r matches Err(ConfigError::MissingAttr(a)) && a@ == "sni_missing"@
    } else if !spec_sni_map_ok(mt) {
        r matches Err(e) && e is BadSniMap
    } else if spec_get_str(t, "api_key"@) is Some && spec_get_str(t, "api_cert"@) is None {
        r matches Err(ConfigError::MissingAttr(a)) && a@ == "api_cert"@
    } else if spec_get_str(t, "api_key"@) is Some && spec_get_str(t, "api_authorized_cert"@)
        is None {
        r matches Err(ConfigError::MissingAttr(a)) && a@ == "api_authorized_cert"@
    } else {
        r matches Ok(ep) && {
            &&& ep.bufsize == bufsize
            &&& ep.listen@ == spec_get_str(t, "endpoint"@).unwrap()
            &&& ep.destination matches Plexer::Sni(sp) && {
                &&& sp.default_addr@ == spec_get_str(t, "sni_missing"@).unwrap()
                &&& spec_sni_entries(mt, sp.sni_map@)
            }
            &&& match spec_get_str(t, "api_key"@) {
                Some(k) => ep.api matches Some(ac) && {
                    &&& ac.key@ == k
                    &&& ac.cert@ == spec_get_str(t, "api_cert"@).unwrap()
                    &&& ac.authorized_cert@ == spec_get_str(t, "api_authorized_cert"@).unwrap()
                },
                None => ep.api is None,
            }
        }
    }
}

/// What one listen entry yields: its name and endpoint are required;
/// with a multiplex table it routes by SNI, else the `destination`
/// attribute names the fixed backend.
pub open spec fn listen_entry_post(
    bufsize: int,
    t: Seq<(String, ConfItem)>,
    r: Result<Endpoint, ConfigError>,
) -> bool {
    if spec_get_str(t, "name"@) is None {
        r matches Err(ConfigError::MissingAttr(a)) && a@ == "name"@
    } else if spec_get_str(t, "endpoint"@) is None {
        r matches Err(ConfigError::MissingAttr(a)) && a@ == "endpoint"@
    } else {
        match spec_table_get(t, "multiplex"@) {
            Some(ConfItem::Tab(mt)) => sni_listen_post(bufsize, t, mt@, r),
            _ => {
                if spec_get_str(t, "destination"@) is None {
                    r matches Err(ConfigError::MissingAttr(a)) && a@ == "destination"@
                } else {
                    r matches Ok(ep) && {
                        &&& ep.bufsize == bufsize
                        &&& ep.listen@ == spec_get_str(t, "endpoint"@).unwrap()
                        &&& ep.destination matches Plexer::Fixed(fp) && fp.destination_addr@
                            == spec_get_str(t, "destination"@).unwrap()
                        &&& ep.api is None
                    }
                }
            },
        }
    }
}

/// What the `[[listen]]` array yields: its first entry, which must be a
/// table, decides; only one listening endpoint is supported.
pub open spec fn parse_listen_post(
    bufsize: int,
    listens: Seq<ConfItem>,
    r: Result<Endpoint, ConfigError>,
) -> bool {
    if listens.len() == 0 {
        r matches Err(e) && e is EmptyListen
    } else {
        match listens[0] {
            ConfItem::Tab(t) => listen_entry_post(bufsize, t@, r),
            _ => r matches Err(e) && e is BadListenEntry,
        }
    }
}

/// The endpoint the `[[listen]]` array describes, under the given
/// buffer size. Only the first listening endpoint is read.
pub fn parse_listen(bufsize: usize, listens: &Vec<ConfItem>) -> (r: Result<Endpoint, ConfigError>)
    requires
        bufsize >= 1,
    ensures
        parse_listen_post(bufsize as int, listens@, r),
        r matches Ok(ep) ==> ep.bufsize >= 1,
{
    if listens.len() == 0 {
        return Err(ConfigError::EmptyListen);
    }
    match &listens[0] {
        ConfItem::Tab(t) => {
            let name = get_str_attr("name", t);
            match name {
                Err(e) => Err(e),
                Ok(_) => {
                    let endpoint = match get_str_attr("endpoint", t) {
                        Ok(s) => s,
                        Err(e) => {
                            return Err(e);
                        },
                    };
                    match table_get(t, "multiplex") {
                        Some(ConfItem::Tab(mt)) => {
                            let default = match get_str_attr("sni_missing", t) {
                                Ok(s) => s,
                                Err(e) => {
                                    return Err(e);
                                },
                            };
                            let sni_map = match get_sni_map(mt) {
                                Ok(m) => m,
                                Err(e) => {
                                    return Err(e);
                                },
                            };
                            let api = match get_str(&"api_key", t) {
                                Some(key) => {
                                    let cert = match get_str_attr("api_cert", t) {
                                        Ok(s) => s,
                                        Err(e) => {
                                            return Err(e);
                                        },
                                    };
                                    let authorized_cert = match get_str_attr(
                                        "api_authorized_cert",
                                        t,
                                    ) {
                                        Ok(s) => s,
                                        Err(e) => {
                                            return Err(e);
                                        },
                                    };
                                    Some(ApiConf { key, cert, authorized_cert })
                                },
                                None => None,
                            };
                            Ok(
                                Endpoint {
                                    bufsize,
                                    listen: endpoint,
                                    destination: Plexer::Sni(
                                        SniPlexer::new(default.as_str(), sni_map),
                                    ),
                                    api,
                                },
                            )
                        },
                        _ => {
                            let destination = match get_str_attr("destination", t) {
                                Ok(s) => s,
                                Err(e) => {
                                    return Err(e);
                                },
                            };
                            Ok(
                                Endpoint {
                                    bufsize,
                                    listen: endpoint,
                                    destination: Plexer::Fixed(
                                        FixedPlexer::new(destination.as_str()),
                                    ),
                                    api: None,
                                },
                            )
                        },
                    }
                },
            }
        },
        _ => Err(ConfigError::BadListenEntry),
    }
}

/// The buffer size the document asks for, if it names one at all.
pub open spec fn spec_conf_bufsize(doc: Seq<(String, ConfItem)>) -> Option<int> {
    match spec_table_get(doc, "global"@) {
        Some(ConfItem::Tab(g)) => match spec_table_get(g@, "bufsize"@) {
            Some(ConfItem::Int(i)) => Some(i as int),
            _ => None,
        },
        _ => None,
    }
}

/// A named buffer size must be positive and fit the machine.
pub open spec fn spec_bufsize_ok(doc: Seq<(String, ConfItem)>) -> bool {
    match spec_conf_bufsize(doc) {
        Some(i) => 1 <= i <= usize::MAX,
        None => true,
    }
}

/// The buffer size in force: the named one, or the default.
pub open spec fn spec_bufsize_of(doc: Seq<(String, ConfItem)>) -> int {
    match spec_conf_bufsize(doc) {
        Some(i) => i,
        None => BUF_SIZE as int,
    }
}

/// What a whole document yields: the buffer size from the `[global]`
/// table, then the `[[listen]]` array.
pub open spec fn parse_toml_post(
    doc: Seq<(String, ConfItem)>,
    r: Result<Endpoint, ConfigError>,
) -> bool {
    if !spec_bufsize_ok(doc) {
        r matches Err(e) && e is BadBufsize
    } else {
        match spec_table_get(doc, "listen"@) {
            Some(ConfItem::Arr(a)) => parse_listen_post(spec_bufsize_of(doc), a@, r),
            _ => r matches Err(e) && e is NoListenSection,
        }
    }
}

/// The endpoint a parsed configuration document describes.
pub fn parse_toml(value: &Vec<(String, ConfItem)>) -> (r: Result<Endpoint, ConfigError>)
    ensures
        parse_toml_post(value@, r),
        r matches Ok(ep) ==> ep.bufsize >= 1,
{
    let bufsize: usize = match table_get(value, "global") {
        Some(ConfItem::Tab(g)) => match table_get(g, "bufsize") {
            Some(ConfItem::Int(i)) => {
                if *i >= 1 && *i as u64 <= usize::MAX as u64 {
                    *i as usize
                } else {
                    return Err(ConfigError::BadBufsize);
                }
            },
            _ => BUF_SIZE,
        },
        _ => BUF_SIZE,
    };
    match table_get(value, "listen") {
        Some(ConfItem::Arr(a)) => parse_listen(bufsize, a),
        _ => Err(ConfigError::NoListenSection),
    }
}

/// The endpoint the process starts with: the configuration file if its
/// text was found and parses as TOML, else the two positional
/// command-line arguments building a fixed policy.
pub fn configure(text: Option<&String>, args: &Vec<String>) -> (r: Result<Endpoint, ConfigError>)
    ensures
        match text {
            Some(t) => match toml_document_of(t@) {
                Some(doc) => parse_toml_post(doc, r),
                None => cmdline_post(args@, r),
            },
            None => cmdline_post(args@, r),
        },
        r matches Ok(ep) ==> ep.bufsize >= 1,
{
    match text {
        Some(t) => match parse_toml_document(t.as_str()) {
            Some(doc) => parse_toml(&doc),
            None => get_args(args),
        },
        None => get_args(args),
    }
}

/// After the control API has started and reported its local address,
/// bind the well-known API hostname to that address in the routing
/// table. A fixed policy keeps no table and is left alone.
pub fn install_api_host(ep: &mut Endpoint, addr: String)
    ensures
        final(ep).bufsize == old(ep).bufsize,
        final(ep).listen == old(ep).listen,
        final(ep).api == old(ep).api,
        match old(ep).destination {
            Plexer::Sni(sp) => final(ep).destination matches Plexer::Sni(sp2) && {
                &&& sp2.default_addr == sp.default_addr
                &&& sp2.sni_map@ =~= sp.sni_map@.push((API_HOST@, addr@))
                &&& crate::multiplex::spec_lookup(sp2.sni_map@, API_HOST@) == Some(addr@)
            },
            Plexer::Fixed(_) => final(ep).destination == old(ep).destination,
        },
{
    match &mut ep.destination {
        Plexer::Sni(sp) => {
            sp.sni_map.insert(API_HOST.to_owned(), addr);
        },
        Plexer::Fixed(_) => (),
    }
}

} // verus!
