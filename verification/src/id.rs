//! Parsing and validation of prefix-tagged, 56-codepoint identifier strings.

use vstd::prelude::*;
use vstd::string::StrSliceExecFns;
use vstd::string::StringExecFns;

verus! {

/// Number of Unicode scalar values every accepted string must have.
pub const ID_LEN: usize = 56;

/// Why a candidate string was rejected.
#[derive(Debug, PartialEq, Eq)]
pub enum IdParseError {
    /// The length was right but the string began with the wrong prefix;
    /// carries the leading substring that was found and the one expected.
    WrongKeyType { found: String, expected: String },
    /// The string did not have exactly [`ID_LEN`] codepoints; carries the
    /// actual codepoint count.
    WrongLength(usize),
}

/// The prefix a candidate must begin with: `S` followed by `prefix` for
/// seeds, `prefix` alone for plain identifiers.
pub open spec fn required_prefix(prefix: char, is_seed: bool) -> Seq<char> {
    if is_seed {
        seq!['S', prefix]
    } else {
        seq![prefix]
    }
}

/// A candidate is accepted exactly when it has [`ID_LEN`] codepoints and
/// begins with the required prefix.
pub open spec fn is_valid(s: Seq<char>, prefix: char, is_seed: bool) -> bool {
    &&& s.len() == ID_LEN
    &&& s.subrange(0, required_prefix(prefix, is_seed).len() as int) == required_prefix(
        prefix,
        is_seed,
    )
}

/// What `parse` returns for a candidate `s` and a prefix choice: the length
/// check comes first, then the prefix check, and an accepted string comes
/// back unchanged.
pub open spec fn parse_outcome(
    r: Result<String, IdParseError>,
    s: Seq<char>,
    prefix: char,
    is_seed: bool,
) -> bool {
    &&& s.len() != ID_LEN ==> (r matches Err(IdParseError::WrongLength(n)) && n == s.len())
    &&& is_valid(s, prefix, is_seed) ==> (r matches Ok(v) && v@ == s)
    &&& s.len() == ID_LEN && !is_valid(s, prefix, is_seed) ==> (r matches Err(
        IdParseError::WrongKeyType { found, expected },
    ) && found@ == s.subrange(0, required_prefix(prefix, is_seed).len() as int) && expected@
        == required_prefix(prefix, is_seed))
}

/// Relies on `String::from(char)`: the returned string holds exactly the one
/// given character.
#[verifier::external_body]
fn char_to_string(c: char) -> (r: String)
    ensures
        r@ == seq![c],
{
    String::from(c)
}

/// Builds the required prefix as an owned string.
fn required_prefix_string(prefix: char, is_seed: bool) -> (r: String)
    ensures
        r@ == required_prefix(prefix, is_seed),
{
    let single = char_to_string(prefix);
    if is_seed {
        proof {
            reveal_strlit("S");
        }
        let mut s = "S".to_owned();
        s.append(single.as_str());
        proof {
            assert(s@ =~= required_prefix(prefix, true));
        }
        s
    } else {
        single
    }
}

/// Validates a candidate identifier or seed string.
///
/// The candidate must have exactly [`ID_LEN`] codepoints, else the actual
/// count is reported; a too-short or too-long string is always a length
/// error, whatever its prefix. A candidate of the right length must then
/// begin with the required prefix, else the leading substring found and the
/// prefix expected are reported. An accepted candidate is returned unchanged
/// as an owned string.
pub fn parse(value: &str, prefix: char, is_seed: bool) -> (r: Result<String, IdParseError>)
    ensures
        parse_outcome(r, value@, prefix, is_seed),
{
    let count = value.unicode_len();
    if count != ID_LEN {
        return Err(IdParseError::WrongLength(count));
    }
    let prefix_ok = if is_seed {
        value.get_char(0) == 'S' && value.get_char(1) == prefix
    } else {
        value.get_char(0) == prefix
    };
    proof {
        let req = required_prefix(prefix, is_seed);
        let pl = req.len() as int;
        assert(value@.subrange(0, pl)[0] == value@[0]);
        if is_seed {
            assert(value@.subrange(0, pl)[1] == value@[1]);
        }
        if prefix_ok {
            assert(value@.subrange(0, pl) =~= req);
        }
    }
    if prefix_ok {
        Ok(value.to_owned())
    } else {
        let plen: usize = if is_seed {
            2
        } else {
            1
        };
        let found = value.substring_char(0, plen).to_owned();
        let expected = required_prefix_string(prefix, is_seed);
        Err(IdParseError::WrongKeyType { found, expected })
    }
}

/// What parsing into an [`Id`] returns: the same outcome as [`parse`], with
/// an accepted string wrapped together with its prefix.
pub open spec fn id_outcome(r: Result<Id, IdParseError>, s: Seq<char>, prefix: char) -> bool {
    &&& s.len() != ID_LEN ==> (r matches Err(IdParseError::WrongLength(n)) && n == s.len())
    &&& is_valid(s, prefix, false) ==> (r matches Ok(id) && id@ == s && id.spec_prefix() == prefix
        && id.wf())
    &&& s.len() == ID_LEN && !is_valid(s, prefix, false) ==> (r matches Err(
        IdParseError::WrongKeyType { found, expected },
    ) && found@ == s.subrange(0, 1) && expected@ == required_prefix(prefix, false))
}

/// What parsing into a [`Seed`] returns: the same outcome as [`parse`], with
/// an accepted string wrapped together with its prefix.
pub open spec fn seed_outcome(r: Result<Seed, IdParseError>, s: Seq<char>, prefix: char) -> bool {
    &&& s.len() != ID_LEN ==> (r matches Err(IdParseError::WrongLength(n)) && n == s.len())
    &&& is_valid(s, prefix, true) ==> (r matches Ok(seed) && seed@ == s && seed.spec_prefix()
        == prefix && seed.wf())
    &&& s.len() == ID_LEN && !is_valid(s, prefix, true) ==> (r matches Err(
        IdParseError::WrongKeyType { found, expected },
    ) && found@ == s.subrange(0, 2) && expected@ == required_prefix(prefix, true))
}

/// A validated plain identifier: exactly [`ID_LEN`] codepoints, the first of
/// which is its prefix character. Immutable once constructed.
#[derive(Clone, Debug, PartialEq, Eq)]
pub struct Id {
    prefix: char,
    value: String,
}

impl View for Id {
    type V = Seq<char>;

    closed spec fn view(&self) -> Seq<char> {
        self.value@
    }
}

impl Id {
    /// The prefix character this identifier was validated against.
    pub closed spec fn spec_prefix(self) -> char {
        self.prefix
    }

    /// Every identifier this module hands out satisfies this: its string has
    /// [`ID_LEN`] codepoints and begins with its prefix character.
    pub open spec fn wf(self) -> bool {
        is_valid(self@, self.spec_prefix(), false)
    }

    /// Parses a candidate identifier with the given prefix character.
    pub fn from_str(s: &str, prefix: char) -> (r: Result<Id, IdParseError>)
        ensures
            id_outcome(r, s@, prefix),
    {
        match parse(s, prefix, false) {
            Ok(value) => Ok(Id { prefix, value }),
            Err(e) => Err(e),
        }
    }

    /// Parses a module identifier (prefix `M`).
    pub fn module(s: &str) -> (r: Result<Id, IdParseError>)
        ensures
            id_outcome(r, s@, 'M'),
    {
        Id::from_str(s, 'M')
    }

    /// Parses a server identifier (prefix `N`).
    pub fn server(s: &str) -> (r: Result<Id, IdParseError>)
        ensures
            id_outcome(r, s@, 'N'),
    {
        Id::from_str(s, 'N')
    }

    /// Parses a service identifier (prefix `V`).
    pub fn service(s: &str) -> (r: Result<Id, IdParseError>)
        ensures
            id_outcome(r, s@, 'V'),
    {
        Id::from_str(s, 'V')
    }

    /// The underlying validated string.
    pub fn as_str(&self) -> (r: &str)
        ensures
            r@ == self@,
    {
        self.value.as_str()
    }

    /// The prefix character, as a runtime value.
    pub fn prefix(&self) -> (r: char)
        ensures
            r == self.spec_prefix(),
    {
        self.prefix
    }
}

/// A validated seed: exactly [`ID_LEN`] codepoints beginning with `S`
/// followed by its prefix character. Immutable once constructed.
#[derive(Clone, Debug, PartialEq, Eq)]
pub struct Seed {
    prefix: char,
    value: String,
}

impl View for Seed {
    type V = Seq<char>;

    closed spec fn view(&self) -> Seq<char> {
        self.value@
    }
}

/// The provisional default seed value: `SC` followed by 54 zero characters.
pub open spec fn default_seed() -> Seq<char> {
    "SC000000000000000000000000000000000000000000000000000000"@
}

impl Seed {
    /// The prefix character this seed was validated against (the character
    /// after the leading `S`).
    pub closed spec fn spec_prefix(self) -> char {
        self.prefix
    }

    /// Every seed this module hands out satisfies this: its string has
    /// [`ID_LEN`] codepoints and begins with `S` then its prefix character.
    pub open spec fn wf(self) -> bool {
        is_valid(self@, self.spec_prefix(), true)
    }

    /// Parses a candidate seed with the given prefix character.
    pub fn from_str(s: &str, prefix: char) -> (r: Result<Seed, IdParseError>)
        ensures
            seed_outcome(r, s@, prefix),
    {
        match parse(s, prefix, true) {
            Ok(value) => Ok(Seed { prefix, value }),
            Err(e) => Err(e),
        }
    }

    /// Parses a cluster seed (prefix `C`, so the string must begin `SC`).
    pub fn cluster(s: &str) -> (r: Result<Seed, IdParseError>)
        ensures
            seed_outcome(r, s@, 'C'),
    {
        Seed::from_str(s, 'C')
    }

    /// The underlying validated string.
    pub fn as_ref(&self) -> (r: &str)
        ensures
            r@ == self@,
    {
        self.value.as_str()
    }

    /// The prefix character, as a runtime value.
    pub fn prefix(&self) -> (r: char)
        ensures
            r == self.spec_prefix(),
    {
        self.prefix
    }
}

impl Default for Seed {
    /// The placeholder cluster seed: `SC` followed by 54 zeros. This value
    /// is provisional — it marks unresolved intent, not a meaningful seed —
    /// and is kept verbatim.
    fn default() -> (r: Seed)
        ensures
            r@ == default_seed(),
            r.spec_prefix() == 'C',
            r.wf(),
    {
        proof {
            reveal_strlit("SC000000000000000000000000000000000000000000000000000000");
        }
        let value = "SC000000000000000000000000000000000000000000000000000000".to_owned();
        proof {
            assert(value@.subrange(0, 2) =~= required_prefix('C', true));
        }
        Seed { prefix: 'C', value }
    }
}

/// Round trip for identifiers: a well-formed identifier serializes to its
/// plain string form, and any result that parsing that form with the same
/// prefix can return is the identifier back, equal by string value and
/// prefix.
pub proof fn lemma_id_round_trip(id: Id, r: Result<Id, IdParseError>)
    requires
        id.wf(),
        id_outcome(r, id@, id.spec_prefix()),
    ensures
        r matches Ok(back) && back@ == id@ && back.spec_prefix() == id.spec_prefix(),
{
}

/// Round trip for seeds: a well-formed seed serializes to its plain string
/// form, and any result that parsing that form with the same prefix can
/// return is the seed back, equal by string value and prefix.
pub proof fn lemma_seed_round_trip(seed: Seed, r: Result<Seed, IdParseError>)
    requires
        seed.wf(),
        seed_outcome(r, seed@, seed.spec_prefix()),
    ensures
        r matches Ok(back) && back@ == seed@ && back.spec_prefix() == seed.spec_prefix(),
{
}

} // verus!
