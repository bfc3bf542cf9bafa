use vstd::prelude::*;

use crate::error::Error;
use crate::text::str_eq;

verus! {

/// The kind of observable artifact an indicator of compromise carries.
///
/// The taxonomy is closed: every recognized kind has one fixed textual
/// form, and any other text is rejected. The empty text stands for
/// `Unknown`, and `Unknown` renders back to the empty text, so rendering
/// and parsing are inverse on every variant.
#[derive(Debug, Clone, Copy, PartialEq, Eq, Structural)]
pub enum IndicatorType {
    /// An IPv4 address indicating the online location of a server
    /// or other computer.
    IPv4,
    /// An IPv6 address indicating the online location of a server
    /// or other computer.
    IPv6,
    /// A domain name for a website or server.
    Domain,
    /// The hostname for a server located within a domain.
    Hostname,
    /// An email address associated with suspicious activity.
    Email,
    /// Uniform Resource Location (URL) summarizing the online location
    /// of a file or resource.
    URL,
    /// Uniform Resource Indicator (URI) describing the explicit path to
    /// a file hosted online.
    URI,
    /// An MD5-format hash that summarizes the architecture and content
    /// of a file.
    MD5,
    /// A SHA-format hash that summarizes the architecture and content
    /// of a file.
    SHA1,
    /// A SHA-256-format hash that summarizes the architecture and
    /// content of a file.
    SHA256,
    /// A PEHASH-format hash that summarizes the architecture and
    /// content of a file.
    PEHASH,
    /// An IMPHASH-format hash that summarizes the architecture and
    /// content of a file.
    IMPHASH,
    /// Classless Inter-Domain Routing (CIDR) address, which describes
    /// both a server's IP address and the surrounding network
    /// architecture.
    CIDR,
    /// A unique location in a file system.
    FilePath,
    /// The name of a mutex resource describing the execution
    /// architecture of a file.
    Mutex,
    /// Common Vulnerability and Exposure (CVE) entry describing a
    /// software vulnerability.
    CVE,
    /// Unknown indicator type.
    Unknown,
}

/// The fixed textual form of each indicator type.
pub open spec fn spec_render(t: IndicatorType) -> Seq<char> {
    match t {
        IndicatorType::IPv4 => "IPv4"@,
        IndicatorType::IPv6 => "IPv6"@,
        IndicatorType::Domain => "domain"@,
        IndicatorType::Hostname => "hostname"@,
        IndicatorType::Email => "email"@,
        IndicatorType::URL => "URL"@,
        IndicatorType::URI => "URI"@,
        IndicatorType::MD5 => "FileHash-MD5"@,
        IndicatorType::SHA1 => "FileHash-SHA1"@,
        IndicatorType::SHA256 => "FileHash-SHA256"@,
        IndicatorType::PEHASH => "FileHash-PEHASH"@,
        IndicatorType::IMPHASH => "FileHash-IMPHASH"@,
        IndicatorType::CIDR => "CIDR"@,
        IndicatorType::FilePath => "FilePath"@,
        IndicatorType::Mutex => "Mutex"@,
        IndicatorType::CVE => "CVE"@,
        IndicatorType::Unknown => ""@,
    }
}

/// Which indicator type a text names: the fixed form of each variant,
/// the empty text for `Unknown`, and an error for everything else.
pub open spec fn spec_parse(s: Seq<char>) -> Result<IndicatorType, Error> {
    if s == "IPv4"@ {
        Ok(IndicatorType::IPv4)
    } else if s == "IPv6"@ {
        Ok(IndicatorType::IPv6)
    } else if s == "domain"@ {
        Ok(IndicatorType::Domain)
    } else if s == "hostname"@ {
        Ok(IndicatorType::Hostname)
    } else if s == "email"@ {
        Ok(IndicatorType::Email)
    } else if s == "URL"@ {
        Ok(IndicatorType::URL)
    } else if s == "URI"@ {
        Ok(IndicatorType::URI)
    } else if s == "FileHash-MD5"@ {
        Ok(IndicatorType::MD5)
    } else if s == "FileHash-SHA1"@ {
        Ok(IndicatorType::SHA1)
    } else if s == "FileHash-SHA256"@ {
        Ok(IndicatorType::SHA256)
    } else if s == "FileHash-PEHASH"@ {
        Ok(IndicatorType::PEHASH)
    } else if s == "FileHash-IMPHASH"@ {
        Ok(IndicatorType::IMPHASH)
    } else if s == "CIDR"@ {
        Ok(IndicatorType::CIDR)
    } else if s == "FilePath"@ {
        Ok(IndicatorType::FilePath)
    } else if s == "Mutex"@ {
        Ok(IndicatorType::Mutex)
    } else if s == "CVE"@ {
        Ok(IndicatorType::CVE)
    } else if s == ""@ {
        Ok(IndicatorType::Unknown)
    } else {
        Err(Error::UnknownIndicatorType)
    }
}

impl Default for IndicatorType {
    /// An indicator type about which nothing is known.
    fn default() -> (r: IndicatorType)
        ensures
            r == IndicatorType::Unknown,
    {
        IndicatorType::Unknown
    }
}

impl IndicatorType {
    /// The textual form of this indicator type, as it appears in the
    /// wire records of the exchange. `Unknown` renders to the empty
    /// text; every variant renders to the text it parses from.
    pub fn render(&self) -> (r: String)
        ensures
            r@ == spec_render(*self),
    {
        match self {
            IndicatorType::IPv4 => String::from_str("IPv4"),
            IndicatorType::IPv6 => String::from_str("IPv6"),
            IndicatorType::Domain => String::from_str("domain"),
            IndicatorType::Hostname => String::from_str("hostname"),
            IndicatorType::Email => String::from_str("email"),
            IndicatorType::URL => String::from_str("URL"),
            IndicatorType::URI => String::from_str("URI"),
            IndicatorType::MD5 => String::from_str("FileHash-MD5"),
            IndicatorType::SHA1 => String::from_str("FileHash-SHA1"),
            IndicatorType::SHA256 => String::from_str("FileHash-SHA256"),
            IndicatorType::PEHASH => String::from_str("FileHash-PEHASH"),
            IndicatorType::IMPHASH => String::from_str("FileHash-IMPHASH"),
            IndicatorType::CIDR => String::from_str("CIDR"),
            IndicatorType::FilePath => String::from_str("FilePath"),
            IndicatorType::Mutex => String::from_str("Mutex"),
            IndicatorType::CVE => String::from_str("CVE"),
            IndicatorType::Unknown => String::from_str(""),
        }
    }

    /// The indicator type a text names. The empty text parses to
    /// `Unknown`; a text that is no fixed form of any variant is
    /// rejected with `Error::UnknownIndicatorType`.
    pub fn parse(s: &str) -> (r: Result<IndicatorType, Error>)
        ensures
            r == spec_parse(s@),
    {
        if str_eq(s, "IPv4") {
            Ok(IndicatorType::IPv4)
        } else if str_eq(s, "IPv6") {
            Ok(IndicatorType::IPv6)
        } else if str_eq(s, "domain") {
            Ok(IndicatorType::Domain)
        } else if str_eq(s, "hostname") {
            Ok(IndicatorType::Hostname)
        } else if str_eq(s, "email") {
            Ok(IndicatorType::Email)
        } else if str_eq(s, "URL") {
            Ok(IndicatorType::URL)
        } else if str_eq(s, "URI") {
            Ok(IndicatorType::URI)
        } else if str_eq(s, "FileHash-MD5") {
            Ok(IndicatorType::MD5)
        } else if str_eq(s, "FileHash-SHA1") {
            Ok(IndicatorType::SHA1)
        } else if str_eq(s, "FileHash-SHA256") {
            Ok(IndicatorType::SHA256)
        } else if str_eq(s, "FileHash-PEHASH") {
            Ok(IndicatorType::PEHASH)
        } else if str_eq(s, "FileHash-IMPHASH") {
            Ok(IndicatorType::IMPHASH)
        } else if str_eq(s, "CIDR") {
            Ok(IndicatorType::CIDR)
        } else if str_eq(s, "FilePath") {
            Ok(IndicatorType::FilePath)
        } else if str_eq(s, "Mutex") {
            Ok(IndicatorType::Mutex)
        } else if str_eq(s, "CVE") {
            Ok(IndicatorType::CVE)
        } else if str_eq(s, "") {
            Ok(IndicatorType::Unknown)
        } else {
            Err(Error::UnknownIndicatorType)
        }
    }
}

/// Rendering and parsing are inverse: parsing the rendered form of any
/// indicator type yields that type back. In particular the empty text
/// and `Unknown` map to each other.
pub proof fn lemma_parse_render(t: IndicatorType)
    ensures
        spec_parse(spec_render(t)) == Ok::<IndicatorType, Error>(t),
{
    broadcast use vstd::string::group_string_axioms;

    reveal_strlit("IPv4");
    reveal_strlit("IPv6");
    reveal_strlit("domain");
    reveal_strlit("hostname");
    reveal_strlit("email");
    reveal_strlit("URL");
    reveal_strlit("URI");
    reveal_strlit("FileHash-MD5");
    reveal_strlit("FileHash-SHA1");
    reveal_strlit("FileHash-SHA256");
    reveal_strlit("FileHash-PEHASH");
    reveal_strlit("FileHash-IMPHASH");
    reveal_strlit("CIDR");
    reveal_strlit("FilePath");
    reveal_strlit("Mutex");
    reveal_strlit("CVE");
    reveal_strlit("");
    assert("IPv4"@.len() == 4 && "IPv4"@[0] == 'I' && "IPv4"@[3] == '4');
    assert("IPv6"@.len() == 4 && "IPv6"@[0] == 'I' && "IPv6"@[3] == '6');
    assert("domain"@.len() == 6 && "domain"@[0] == 'd');
    assert("hostname"@.len() == 8 && "hostname"@[0] == 'h');
    assert("email"@.len() == 5 && "email"@[0] == 'e');
    assert("URL"@.len() == 3 && "URL"@[0] == 'U' && "URL"@[2] == 'L');
    assert("URI"@.len() == 3 && "URI"@[0] == 'U' && "URI"@[2] == 'I');
    assert("FileHash-MD5"@.len() == 12 && "FileHash-MD5"@[0] == 'F');
    assert("FileHash-SHA1"@.len() == 13 && "FileHash-SHA1"@[0] == 'F');
    assert("FileHash-SHA256"@.len() == 15 && "FileHash-SHA256"@[9] == 'S');
    assert("FileHash-PEHASH"@.len() == 15 && "FileHash-PEHASH"@[9] == 'P');
    assert("FileHash-IMPHASH"@.len() == 16 && "FileHash-IMPHASH"@[0] == 'F');
    assert("CIDR"@.len() == 4 && "CIDR"@[0] == 'C');
    assert("FilePath"@.len() == 8 && "FilePath"@[0] == 'F');
    assert("Mutex"@.len() == 5 && "Mutex"@[0] == 'M');
    assert("CVE"@.len() == 3 && "CVE"@[0] == 'C');
    assert(""@.len() == 0);
    match t {
        IndicatorType::IPv4 => assert(spec_parse("IPv4"@) == Ok::<IndicatorType, Error>(t)),
        IndicatorType::IPv6 => assert(spec_parse("IPv6"@) == Ok::<IndicatorType, Error>(t)),
        IndicatorType::Domain => assert(spec_parse("domain"@) == Ok::<IndicatorType, Error>(t)),
        IndicatorType::Hostname => assert(spec_parse("hostname"@) == Ok::<IndicatorType, Error>(
            t,
        )),
        IndicatorType::Email => assert(spec_parse("email"@) == Ok::<IndicatorType, Error>(t)),
        IndicatorType::URL => assert(spec_parse("URL"@) == Ok::<IndicatorType, Error>(t)),
        IndicatorType::URI => assert(spec_parse("URI"@) == Ok::<IndicatorType, Error>(t)),
        IndicatorType::MD5 => assert(spec_parse("FileHash-MD5"@) == Ok::<IndicatorType, Error>(
            t,
        )),
        IndicatorType::SHA1 => assert(spec_parse("FileHash-SHA1"@) == Ok::<IndicatorType, Error>(
            t,
        )),
        IndicatorType::SHA256 => assert(spec_parse("FileHash-SHA256"@) == Ok::<
            IndicatorType,
            Error,
        >(t)),
        IndicatorType::PEHASH => assert(spec_parse("FileHash-PEHASH"@) == Ok::<
            IndicatorType,
            Error,
        >(t)),
        IndicatorType::IMPHASH => assert(spec_parse("FileHash-IMPHASH"@) == Ok::<
            IndicatorType,
            Error,
        >(t)),
        IndicatorType::CIDR => assert(spec_parse("CIDR"@) == Ok::<IndicatorType, Error>(t)),
        IndicatorType::FilePath => assert(spec_parse("FilePath"@) == Ok::<IndicatorType, Error>(
            t,
        )),
        IndicatorType::Mutex => assert(spec_parse("Mutex"@) == Ok::<IndicatorType, Error>(t)),
        IndicatorType::CVE => assert(spec_parse("CVE"@) == Ok::<IndicatorType, Error>(t)),
        IndicatorType::Unknown => assert(spec_parse(""@) == Ok::<IndicatorType, Error>(t)),
    }
}

/// The empty text parses to `Unknown`, and `Unknown` renders to the
/// empty text.
pub proof fn lemma_unknown_empty_text()
    ensures
        spec_parse(""@) == Ok::<IndicatorType, Error>(IndicatorType::Unknown),
        spec_render(IndicatorType::Unknown) == ""@,
{
    lemma_parse_render(IndicatorType::Unknown);
}

} // verus!
