use vstd::prelude::*;

use crate::strutil::{all_digits, parse_decimal, spec_decimal_value};

verus! {

/// Process-wide configuration: read once at startup, immutable while the
/// process serves traffic. The verification secret and required audience
/// are handed from here into every verification call.
#[derive(Clone, Debug)]
pub struct Config {
    pub database_url: String,
    pub supabase_jwt_secret: String,
    pub supabase_url: String,
    pub server_host: String,
    pub server_port: u16,
}

/// Whether a port text names a port: a non-empty digit text whose value
/// fits in sixteen bits.
pub open spec fn spec_port_ok(p: Seq<char>) -> bool {
    p.len() > 0 && all_digits(p) && spec_decimal_value(p) <= 0xffff
}

impl Config {
    /// Assembles the configuration out of the values the environment
    /// supplied: the first three are required by the caller, the host
    /// defaults to `0.0.0.0`, the port to 3000; a port text that does not
    /// name a port is rejected.
    pub fn assemble(
        database_url: String,
        supabase_jwt_secret: String,
        supabase_url: String,
        server_host: Option<String>,
        server_port: Option<String>,
    ) -> (r: Option<Config>)
        ensures
            r matches Some(c) ==> {
                &&& c.database_url == database_url
                &&& c.supabase_jwt_secret == supabase_jwt_secret
                &&& c.supabase_url == supabase_url
                &&& c.server_host@ == (match server_host {
                    Some(h) => h@,
                    None => "0.0.0.0"@,
                })
                &&& c.server_port as nat == (match server_port {
                    Some(p) => spec_decimal_value(p@),
                    None => 3000,
                })
            },
            r is None <==> (server_port matches Some(p) && !spec_port_ok(p@)),
    {
        let port: u16 = match &server_port {
            None => 3000,
            Some(p) => {
                match parse_decimal(p.as_str()) {
                    Some(v) if v <= 0xffff => v as u16,
                    _ => {
                        return None;
                    },
                }
            },
        };
        let host = match server_host {
            Some(h) => h,
            None => String::from_str("0.0.0.0"),
        };
        Some(Config { database_url, supabase_jwt_secret, supabase_url, server_host: host, server_port: port })
    }
}

} // verus!
