//! The closed set of currencies, their codes, and parsing a code back.

use vstd::prelude::*;

verus! {

/// The unit of the US dollar.
#[derive(Clone, Copy, Debug, PartialEq, Eq, Hash)]
pub struct Dollar;

/// The unit of the Swiss franc.
#[derive(Clone, Copy, Debug, PartialEq, Eq, Hash)]
pub struct Franc;

/// A monetary unit out of a fixed, closed set.
#[derive(Clone, Copy, Debug, PartialEq, Eq, Hash)]
pub enum Currency {
    Dollar(Dollar),
    Franc(Franc),
}

/// The code of the dollar, `USD`.
pub open spec fn usd() -> Seq<char> {
    seq!['U', 'S', 'D']
}

/// The code of the franc, `CHF`.
pub open spec fn chf() -> Seq<char> {
    seq!['C', 'H', 'F']
}

impl Currency {
    /// The three-letter code under which the currency is written.
    pub open spec fn code(self) -> Seq<char> {
        match self {
            Currency::Dollar(_) => usd(),
            Currency::Franc(_) => chf(),
        }
    }

    /// What parsing `s` gives: the currency whose code is `s`, if any.
    pub open spec fn parsed(s: Seq<char>) -> Result<Currency, ()> {
        if s == usd() {
            Ok(Currency::Dollar(Dollar))
        } else if s == chf() {
            Ok(Currency::Franc(Franc))
        } else {
            Err(())
        }
    }

    /// A small number that tells the currencies apart.
    pub open spec fn index(self) -> nat {
        match self {
            Currency::Dollar(_) => 0,
            Currency::Franc(_) => 1,
        }
    }

    /// The code of the currency as a static string.
    pub fn currency(self) -> (r: &'static str)
        ensures
            r@ == self.code(),
    {
        match self {
            Currency::Dollar(_) => {
                let s = "USD";
                proof {
                    reveal_strlit("USD");
                }
                s
            },
            Currency::Franc(_) => {
                let s = "CHF";
                proof {
                    reveal_strlit("CHF");
                }
                s
            },
        }
    }

    /// The code of the currency as an owned string.
    pub fn to_string(&self) -> (r: String)
        ensures
            r@ == self.code(),
    {
        self.currency().to_owned()
    }

    /// Reads a currency code; a code outside the closed set is an error.
    pub fn parse(s: &str) -> (r: Result<Currency, ()>)
        ensures
            r == Currency::parsed(s@),
            r is Err <==> forall|c: Currency| c.code() != s@,
    {
        let owned = s.to_owned();
        let usd_code = Currency::Dollar(Dollar).to_string();
        let chf_code = Currency::Franc(Franc).to_string();
        proof {
            lemma_codes_distinct();
        }
        if owned == usd_code {
            Ok(Currency::Dollar(Dollar))
        } else if owned == chf_code {
            Ok(Currency::Franc(Franc))
        } else {
            assert forall|c: Currency| c.code() != s@ by {
                match c {
                    Currency::Dollar(_) => {},
                    Currency::Franc(_) => {},
                }
            }
            Err(())
        }
    }
}

/// The two codes differ.
proof fn lemma_codes_distinct()
    ensures
        usd() != chf(),
{
    assert(usd()[0] != chf()[0]);
}

/// Parsing the code of a currency gives that currency back, and a code that
/// belongs to no currency is refused.
pub proof fn lemma_parse_round_trip(c: Currency, s: Seq<char>)
    ensures
        Currency::parsed(c.code()) == Ok::<Currency, ()>(c),
        (forall|d: Currency| d.code() != s) ==> Currency::parsed(s) == Err::<Currency, ()>(()),
{
    lemma_codes_distinct();
    match c {
        Currency::Dollar(Dollar) => {},
        Currency::Franc(Franc) => {},
    }
    if forall|d: Currency| d.code() != s {
        assert(Currency::Dollar(Dollar).code() != s);
        assert(Currency::Franc(Franc).code() != s);
    }
}

impl From<Dollar> for Currency {
    fn from(dollar: Dollar) -> (r: Currency) {
        Currency::Dollar(dollar)
    }
}

impl vstd::std_specs::convert::FromSpecImpl<Dollar> for Currency {
    open spec fn obeys_from_spec() -> bool {
        true
    }

    open spec fn from_spec(v: Dollar) -> Currency {
        Currency::Dollar(v)
    }
}

impl From<Franc> for Currency {
    fn from(franc: Franc) -> (r: Currency) {
        Currency::Franc(franc)
    }
}

impl vstd::std_specs::convert::FromSpecImpl<Franc> for Currency {
    open spec fn obeys_from_spec() -> bool {
        true
    }

    open spec fn from_spec(v: Franc) -> Currency {
        Currency::Franc(v)
    }
}

impl std::str::FromStr for Currency {
    type Err = ();

    /// Reads a currency code, as `Currency::parse` does.
    fn from_str(s: &str) -> (r: Result<Currency, ()>)
        ensures
            r == Currency::parsed(s@),
            r is Err <==> forall|c: Currency| c.code() != s@,
    {
        Currency::parse(s)
    }
}

} // verus!
