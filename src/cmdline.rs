use vstd::prelude::*;

verus! {

/// Why the command line could not be read.
#[derive(Clone, Copy, Debug, PartialEq, Eq, Structural)]
pub enum OptionsError {
    Port,
    RpcPort,
    MetricsPort,
    ConsensusType,
    Network,
    LogTag,
}

/// The kind of node to run.
#[derive(Clone, Copy, Debug, PartialEq, Eq, Structural)]
pub enum NodeType {
    Full,
    Light,
    Nano,
}

/// The network to join.
#[derive(Clone, Copy, Debug, PartialEq, Eq, Structural)]
pub enum Network {
    Main,
    Test,
    Dev,
}

/// What `str::trim` leaves of `s`.
pub uninterp spec fn trimmed_of(s: Seq<char>) -> Seq<char>;

/// Relies on str::trim: `s` without its leading and trailing white space;
/// the result depends on `s` alone.
#[verifier::external_body]
fn trim(s: &str) -> (r: &str)
    ensures
        r@ == trimmed_of(s@),
{
    s.trim()
}

pub open spec fn is_digit(c: char) -> bool {
    '0' <= c <= '9'
}

/// The value of a decimal digit.
pub open spec fn digit_of(c: char) -> nat {
    (c as int - '0' as int) as nat
}

/// The value of the decimal digits `s`.
pub open spec fn digits_value(s: Seq<char>) -> nat
    decreases s.len(),
{
    if s.len() == 0 {
        0
    } else {
        digits_value(s.drop_last()) * 10 + digit_of(s.last())
    }
}

/// The digits of a number, without the `+` sign that may lead them.
pub open spec fn unsigned_digits(s: Seq<char>) -> Seq<char> {
    if s.len() > 0 && s[0] == '+' {
        s.subrange(1, s.len() as int)
    } else {
        s
    }
}

/// The `u16` that `s` writes in decimal, with an optional leading `+`.
pub open spec fn spec_parse_u16(s: Seq<char>) -> Option<u16> {
    let d = unsigned_digits(s);
    if d.len() > 0 && (forall|i: int| 0 <= i < d.len() ==> is_digit(#[trigger] d[i])) && digits_value(d)
        <= 65535 {
        Some(digits_value(d) as u16)
    } else {
        None
    }
}

proof fn lemma_digits_value_grows(s: Seq<char>, i: int)
    requires
        0 <= i <= s.len(),
        forall|k: int| 0 <= k < s.len() ==> is_digit(#[trigger] s[k]),
    ensures
        digits_value(s.subrange(0, i)) <= digits_value(s),
    decreases s.len() - i,
{
    if i < s.len() {
        lemma_digits_value_grows(s, i + 1);
        let t = s.subrange(0, i + 1);
        assert(t.drop_last() =~= s.subrange(0, i));
    } else {
        assert(s.subrange(0, i) =~= s);
    }
}

/// Reads `s` as a decimal `u16`: digits only, after an optional `+`, and
/// at most 65535.
pub fn parse_u16(s: &str) -> (r: Option<u16>)
    ensures
        r == spec_parse_u16(s@),
{
    let n = s.unicode_len();
    let mut i: usize = 0;
    if n > 0 && s.get_char(0) == '+' {
        i = 1;
    }
    let start = i;
    let ghost d = unsigned_digits(s@);
    assert(d =~= s@.subrange(start as int, n as int));
    if start == n {
        return None;
    }
    let mut value: u32 = 0;
    while i < n
        invariant
            start <= i <= n,
            n == s@.len(),
            d == s@.subrange(start as int, n as int),
            d == unsigned_digits(s@),
            d.len() > 0,
            value == digits_value(d.subrange(0, i - start)),
            value <= 65535,
            forall|k: int| 0 <= k < i - start ==> is_digit(#[trigger] d[k]),
        decreases n - i,
    {
        let c = s.get_char(i);
        assert(d[i - start] == c);
        if c < '0' || c > '9' {
            assert(!is_digit(d[i - start]));
            return None;
        }
        let ghost prev = d.subrange(0, i - start);
        assert(d.subrange(0, i + 1 - start).drop_last() =~= prev);
        assert(d.subrange(0, i + 1 - start).last() == c);
        value = value * 10 + (c as u32 - '0' as u32);
        assert(value == digits_value(d.subrange(0, i + 1 - start)));
        i = i + 1;
        if value > 65535 {
            proof {
                let len = d.len();
                if forall|k: int| 0 <= k < len ==> is_digit(#[trigger] d[k]) {
                    lemma_digits_value_grows(d, i - start);
                }
            }
            return None;
        }
    }
    assert(d.subrange(0, n - start) =~= d);
    Some(value as u16)
}

/// Whether `s` and `lit` agree character by character, ignoring the case of
/// ASCII letters.
pub open spec fn eq_ignore_ascii_case(s: Seq<char>, lit: Seq<char>) -> bool {
    s.len() == lit.len() && forall|i: int| 0 <= i < s.len() ==> ascii_lower(#[trigger] s[i]) == ascii_lower(lit[i])
}

pub open spec fn ascii_lower(c: char) -> char {
    if 'A' <= c <= 'Z' {
        (c as u32 + 32) as char
    } else {
        c
    }
}

fn lower(c: char) -> (r: char)
    ensures
        r == ascii_lower(c),
{
    if 'A' <= c && c <= 'Z' {
        ((c as u8) + 32) as char
    } else {
        c
    }
}

fn str_eq_ignore_ascii_case(s: &str, lit: &str) -> (r: bool)
    ensures
        r == eq_ignore_ascii_case(s@, lit@),
{
    let n = s.unicode_len();
    if n != lit.unicode_len() {
        return false;
    }
    let mut i: usize = 0;
    while i < n
        invariant
            n == s@.len(),
            n == lit@.len(),
            i <= n,
            forall|k: int| 0 <= k < i ==> ascii_lower(#[trigger] s@[k]) == ascii_lower(lit@[k]),
        decreases n - i,
    {
        if lower(s.get_char(i)) != lower(lit.get_char(i)) {
            return false;
        }
        i = i + 1;
    }
    true
}

/// The node type that `s` names, in any case of letters.
pub open spec fn spec_node_type(s: Seq<char>) -> Option<NodeType> {
    if eq_ignore_ascii_case(s, "full"@) {
        Some(NodeType::Full)
    } else if eq_ignore_ascii_case(s, "light"@) {
        Some(NodeType::Light)
    } else if eq_ignore_ascii_case(s, "nano"@) {
        Some(NodeType::Nano)
    } else {
        None
    }
}

/// The network that `s` names, in any case of letters.
pub open spec fn spec_network(s: Seq<char>) -> Option<Network> {
    if eq_ignore_ascii_case(s, "main"@) {
        Some(Network::Main)
    } else if eq_ignore_ascii_case(s, "test"@) {
        Some(Network::Test)
    } else if eq_ignore_ascii_case(s, "dev"@) {
        Some(Network::Dev)
    } else {
        None
    }
}

impl NodeType {
    pub fn from_str(s: &str) -> (r: Option<NodeType>)
        ensures
            r == spec_node_type(s@),
    {
        if str_eq_ignore_ascii_case(s, "full") {
            Some(NodeType::Full)
        } else if str_eq_ignore_ascii_case(s, "light") {
            Some(NodeType::Light)
        } else if str_eq_ignore_ascii_case(s, "nano") {
            Some(NodeType::Nano)
        } else {
            None
        }
    }
}

impl Network {
    pub fn from_str(s: &str) -> (r: Option<Network>)
        ensures
            r == spec_network(s@),
    {
        if str_eq_ignore_ascii_case(s, "main") {
            Some(Network::Main)
        } else if str_eq_ignore_ascii_case(s, "test") {
            Some(Network::Test)
        } else if str_eq_ignore_ascii_case(s, "dev") {
            Some(Network::Dev)
        } else {
            None
        }
    }
}

/// The number of colons in `s`.
pub open spec fn colon_count(s: Seq<char>) -> nat
    decreases s.len(),
{
    if s.len() == 0 {
        0
    } else {
        colon_count(s.drop_last()) + if s.last() == ':' { 1nat } else { 0nat }
    }
}

/// The position of the first colon in `s`, or its length where it has none.
pub open spec fn first_colon(s: Seq<char>) -> int
    decreases s.len(),
{
    if s.len() == 0 {
        0
    } else if colon_count(s.drop_last()) > 0 {
        first_colon(s.drop_last())
    } else if s.last() == ':' {
        s.len() - 1
    } else {
        s.len() as int
    }
}

/// The characters of a pair of strings.
pub open spec fn pair_chars(p: (String, String)) -> (Seq<char>, Seq<char>) {
    (p.0@, p.1@)
}

/// A `TAG:LEVEL` value split at its colon; there must be exactly one.
pub open spec fn spec_log_tag(s: Seq<char>) -> Option<(Seq<char>, Seq<char>)> {
    if colon_count(s) == 1 {
        Some((s.subrange(0, first_colon(s)), s.subrange(first_colon(s) + 1, s.len() as int)))
    } else {
        None
    }
}

proof fn lemma_first_colon_bounds(s: Seq<char>)
    requires
        colon_count(s) > 0,
    ensures
        0 <= first_colon(s) < s.len(),
    decreases s.len(),
{
    if colon_count(s.drop_last()) > 0 {
        lemma_first_colon_bounds(s.drop_last());
    }
}

/// Splits a `TAG:LEVEL` value at its one colon.
pub fn parse_log_tag(value: &str) -> (r: Option<(String, String)>)
    ensures
        match spec_log_tag(value@) {
            Some(p) => r is Some && pair_chars(r->0) == p,
            None => r is None,
        },
{
    let n = value.unicode_len();
    let mut count: usize = 0;
    let mut pos: usize = 0;
    let mut i: usize = 0;
    while i < n
        invariant
            n == value@.len(),
            i <= n,
            count == colon_count(value@.subrange(0, i as int)),
            count <= i,
            count > 0 ==> pos == first_colon(value@.subrange(0, i as int)),
        decreases n - i,
    {
        let ghost pre = value@.subrange(0, i + 1 as int);
        assert(pre.drop_last() =~= value@.subrange(0, i as int));
        if value.get_char(i) == ':' {
            if count == 0 {
                pos = i;
            }
            count = count + 1;
        }
        i = i + 1;
    }
    assert(value@.subrange(0, n as int) =~= value@);
    if count != 1 {
        return None;
    }
    proof {
        lemma_first_colon_bounds(value@);
    }
    let tag = value.substring_char(0, pos).to_owned();
    let level = value.substring_char(pos + 1, n).to_owned();
    Some((tag, level))
}

/// The values given on the command line, as the argument parser found
/// them.
pub struct Arguments {
    pub hostname: Option<String>,
    pub port: Option<String>,
    pub config: Option<String>,
    pub log_level: Option<String>,
    pub log_tags: Option<Vec<String>>,
    pub passive: bool,
    pub consensus_type: Option<String>,
    pub network: Option<String>,
}

/// The settings of a node, read from its command line.
pub struct Options {
    pub hostname: Option<String>,
    pub port: Option<u16>,
    pub config_file: Option<String>,
    pub log_level: Option<String>,
    /// `(tag, level)` pairs in the order given; for a tag given twice the
    /// later level counts.
    pub log_tags: Vec<(String, String)>,
    pub passive: bool,
    pub consensus_type: Option<NodeType>,
    pub wallet_seed: Option<String>,
    pub wallet_address: Option<String>,
    pub network: Option<Network>,
}

pub open spec fn opt_chars(o: Option<String>) -> Option<Seq<char>> {
    match o {
        Some(s) => Some(s@),
        None => None,
    }
}

/// The port that an option value gives, read after trimming white space.
pub open spec fn spec_port_option(v: Option<Seq<char>>) -> Result<Option<u16>, OptionsError> {
    match v {
        None => Ok(None),
        Some(s) => match spec_parse_u16(trimmed_of(s)) {
            Some(p) => Ok(Some(p)),
            None => Err(OptionsError::Port),
        },
    }
}

/// The node type that an option value gives, read after trimming.
pub open spec fn spec_node_type_option(v: Option<Seq<char>>) -> Result<Option<NodeType>, OptionsError> {
    match v {
        None => Ok(None),
        Some(s) => match spec_node_type(trimmed_of(s)) {
            Some(t) => Ok(Some(t)),
            None => Err(OptionsError::ConsensusType),
        },
    }
}

/// The network that an option value gives, read after trimming.
pub open spec fn spec_network_option(v: Option<Seq<char>>) -> Result<Option<Network>, OptionsError> {
    match v {
        None => Ok(None),
        Some(s) => match spec_network(trimmed_of(s)) {
            Some(t) => Ok(Some(t)),
            None => Err(OptionsError::Network),
        },
    }
}

/// Whether every value in `values` is a well-formed `TAG:LEVEL`.
pub open spec fn all_log_tags_valid(values: Seq<String>) -> bool {
    forall|i: int| 0 <= i < values.len() ==> (#[trigger] spec_log_tag(values[i]@)) is Some
}

/// Whether `tags` are the pairs that `values` give, in order.
pub open spec fn log_tags_match(tags: Seq<(String, String)>, values: Seq<String>) -> bool {
    tags.len() == values.len() && forall|i: int|
        0 <= i < values.len() ==> spec_log_tag(#[trigger] values[i]@) == Some(pair_chars(tags[i]))
}

fn parse_port(value: &Option<String>) -> (r: Result<Option<u16>, OptionsError>)
    ensures
        r == spec_port_option(opt_chars(*value)),
{
    match value {
        None => Ok(None),
        Some(s) => match parse_u16(trim(s.as_str())) {
            Some(p) => Ok(Some(p)),
            None => Err(OptionsError::Port),
        },
    }
}

fn parse_node_type(value: &Option<String>) -> (r: Result<Option<NodeType>, OptionsError>)
    ensures
        r == spec_node_type_option(opt_chars(*value)),
{
    match value {
        None => Ok(None),
        Some(s) => match NodeType::from_str(trim(s.as_str())) {
            Some(t) => Ok(Some(t)),
            None => Err(OptionsError::ConsensusType),
        },
    }
}

fn parse_network(value: &Option<String>) -> (r: Result<Option<Network>, OptionsError>)
    ensures
        r == spec_network_option(opt_chars(*value)),
{
    match value {
        None => Ok(None),
        Some(s) => match Network::from_str(trim(s.as_str())) {
            Some(t) => Ok(Some(t)),
            None => Err(OptionsError::Network),
        },
    }
}

fn parse_log_tags(values: &Option<Vec<String>>) -> (r: Result<Vec<(String, String)>, OptionsError>)
    ensures
        values is None ==> r is Ok && r->Ok_0@.len() == 0,
        values is Some && all_log_tags_valid(values->0@) ==> r is Ok && log_tags_match(r->Ok_0@, values->0@),
        values is Some && !all_log_tags_valid(values->0@) ==> r is Err && r->Err_0 == OptionsError::LogTag,
{
    let mut tags: Vec<(String, String)> = Vec::new();
    match values {
        None => Ok(tags),
        Some(v) => {
            let mut i: usize = 0;
            while i < v.len()
                invariant
                    i <= v@.len(),
                    values is Some && values->0@ == v@,
                    all_log_tags_valid(v@.subrange(0, i as int)),
                    log_tags_match(tags@, v@.subrange(0, i as int)),
                decreases v@.len() - i,
            {
                match parse_log_tag(v[i].as_str()) {
                    Some(pair) => {
                        tags.push(pair);
                    },
                    None => {
                        assert(spec_log_tag(v@[i as int]@) is None);
                        assert(!all_log_tags_valid(v@));
                        return Err(OptionsError::LogTag);
                    },
                }
                i = i + 1;
                assert forall|k: int| 0 <= k < i implies (#[trigger] spec_log_tag(v@.subrange(0, i as int)[k]@)) is Some by {
                    if k < i - 1 {
                        assert(v@.subrange(0, i as int)[k] == v@.subrange(0, i - 1 as int)[k]);
                    }
                }
                assert forall|k: int| 0 <= k < i implies spec_log_tag(#[trigger] v@.subrange(0, i as int)[k]@) == Some(pair_chars(tags@[k])) by {
                    if k < i - 1 {
                        assert(v@.subrange(0, i as int)[k] == v@.subrange(0, i - 1 as int)[k]);
                    }
                }
            }
            assert(v@.subrange(0, v@.len() as int) =~= v@);
            Ok(tags)
        },
    }
}

/// The first error among the option values, in the order port, log tags,
/// consensus type, network; `None` where every value reads.
pub open spec fn spec_options_error(a: Arguments) -> Option<OptionsError> {
    if spec_port_option(opt_chars(a.port)) is Err {
        Some(OptionsError::Port)
    } else if a.log_tags is Some && !all_log_tags_valid(a.log_tags->0@) {
        Some(OptionsError::LogTag)
    } else if spec_node_type_option(opt_chars(a.consensus_type)) is Err {
        Some(OptionsError::ConsensusType)
    } else if spec_network_option(opt_chars(a.network)) is Err {
        Some(OptionsError::Network)
    } else {
        None
    }
}

impl Options {
    /// Reads the node's settings from the values given on its command line.
    ///
    /// The port, consensus type and network are read after trimming white
    /// space; each log tag value must be `TAG:LEVEL` with exactly one colon.
    /// The first value that does not read gives the error.
    pub fn parse(args: &Arguments) -> (r: Result<Options, OptionsError>)
        ensures
            match spec_options_error(*args) {
                Some(e) => r == Err::<Options, OptionsError>(e),
                None => r is Ok && {
                    let o = r->Ok_0;
                    &&& opt_chars(o.hostname) == opt_chars(args.hostname)
                    &&& Ok::<Option<u16>, OptionsError>(o.port) == spec_port_option(opt_chars(args.port))
                    &&& opt_chars(o.config_file) == opt_chars(args.config)
                    &&& opt_chars(o.log_level) == opt_chars(args.log_level)
                    &&& match args.log_tags {
                        None => o.log_tags@.len() == 0,
                        Some(v) => log_tags_match(o.log_tags@, v@),
                    }
                    &&& o.passive == args.passive
                    &&& Ok::<Option<NodeType>, OptionsError>(o.consensus_type) == spec_node_type_option(opt_chars(args.consensus_type))
                    &&& o.wallet_seed is None
                    &&& o.wallet_address is None
                    &&& Ok::<Option<Network>, OptionsError>(o.network) == spec_network_option(opt_chars(args.network))
                },
            },
    {
        let port = match parse_port(&args.port) {
            Ok(p) => p,
            Err(e) => return Err(e),
        };
        let log_tags = match parse_log_tags(&args.log_tags) {
            Ok(t) => t,
            Err(e) => return Err(e),
        };
        let consensus_type = match parse_node_type(&args.consensus_type) {
            Ok(t) => t,
            Err(e) => return Err(e),
        };
        let network = match parse_network(&args.network) {
            Ok(t) => t,
            Err(e) => return Err(e),
        };
        Ok(Options {
            hostname: clone_string(&args.hostname),
            port,
            config_file: clone_string(&args.config),
            log_level: clone_string(&args.log_level),
            log_tags,
            passive: args.passive,
            consensus_type,
            wallet_seed: None,
            wallet_address: None,
            network,
        })
    }
}

fn clone_string(o: &Option<String>) -> (r: Option<String>)
    ensures
        opt_chars(r) == opt_chars(*o),
{
    match o {
        Some(s) => Some(s.clone()),
        None => None,
    }
}

} // verus!
