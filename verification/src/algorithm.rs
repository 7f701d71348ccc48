//! The signature algorithms of JSON Web Tokens.

use crate::text::same_text;
use vstd::prelude::*;

verus! {

/// A signature algorithm that a token header can name.
#[derive(Debug, Clone, Copy, PartialEq, Eq, Structural)]
pub enum Algorithm {
    HS256,
    HS384,
    HS512,
    ES256,
    ES384,
    RS256,
    RS384,
    RS512,
    PS256,
    PS384,
    PS512,
    EdDSA,
}

impl Algorithm {
    /// Whether signing and verifying take the same secret.
    pub open spec fn is_symmetric(self) -> bool {
        self is HS256 || self is HS384 || self is HS512
    }

    /// Whether a published key can be for this algorithm: an RSA or an
    /// elliptic-curve signature.
    pub open spec fn is_published(self) -> bool {
        !self.is_symmetric() && !(self is EdDSA)
    }

    /// The name of the algorithm, as it is written in messages.
    pub open spec fn text(self) -> Seq<char> {
        match self {
            Algorithm::HS256 => "HS256"@,
            Algorithm::HS384 => "HS384"@,
            Algorithm::HS512 => "HS512"@,
            Algorithm::ES256 => "ES256"@,
            Algorithm::ES384 => "ES384"@,
            Algorithm::RS256 => "RS256"@,
            Algorithm::RS384 => "RS384"@,
            Algorithm::RS512 => "RS512"@,
            Algorithm::PS256 => "PS256"@,
            Algorithm::PS384 => "PS384"@,
            Algorithm::PS512 => "PS512"@,
            Algorithm::EdDSA => "EdDSA"@,
        }
    }

    /// The name of the algorithm.
    pub fn name(self) -> (name: &'static str)
        ensures
            name@ == self.text(),
    {
        match self {
            Algorithm::HS256 => "HS256",
            Algorithm::HS384 => "HS384",
            Algorithm::HS512 => "HS512",
            Algorithm::ES256 => "ES256",
            Algorithm::ES384 => "ES384",
            Algorithm::RS256 => "RS256",
            Algorithm::RS384 => "RS384",
            Algorithm::RS512 => "RS512",
            Algorithm::PS256 => "PS256",
            Algorithm::PS384 => "PS384",
            Algorithm::PS512 => "PS512",
            Algorithm::EdDSA => "EdDSA",
        }
    }
}

/// The algorithm that a published key names by `text`, if keys may name it.
pub open spec fn algorithm_named(text: Seq<char>) -> Option<Algorithm> {
    if text == "RS256"@ {
        Some(Algorithm::RS256)
    } else if text == "RS384"@ {
        Some(Algorithm::RS384)
    } else if text == "RS512"@ {
        Some(Algorithm::RS512)
    } else if text == "ES256"@ {
        Some(Algorithm::ES256)
    } else if text == "ES384"@ {
        Some(Algorithm::ES384)
    } else if text == "PS256"@ {
        Some(Algorithm::PS256)
    } else if text == "PS384"@ {
        Some(Algorithm::PS384)
    } else if text == "PS512"@ {
        Some(Algorithm::PS512)
    } else {
        None
    }
}

/// Reads the algorithm name of a published key. Symmetric algorithms and
/// unknown names give `None`, as does a key that names none.
pub fn parse_algorithm(alg: Option<&str>) -> (parsed: Option<Algorithm>)
    ensures
        parsed == (match alg {
            Some(text) => algorithm_named(text@),
            None => None,
        }),
{
    match alg {
        None => None,
        Some(text) => if same_text(text, "RS256") {
            Some(Algorithm::RS256)
        } else if same_text(text, "RS384") {
            Some(Algorithm::RS384)
        } else if same_text(text, "RS512") {
            Some(Algorithm::RS512)
        } else if same_text(text, "ES256") {
            Some(Algorithm::ES256)
        } else if same_text(text, "ES384") {
            Some(Algorithm::ES384)
        } else if same_text(text, "PS256") {
            Some(Algorithm::PS256)
        } else if same_text(text, "PS384") {
            Some(Algorithm::PS384)
        } else if same_text(text, "PS512") {
            Some(Algorithm::PS512)
        } else {
            None
        },
    }
}

/// Reading the name of an algorithm gives the algorithm back, exactly for the
/// algorithms that a published key can be for.
pub proof fn law_published_names_read_back(alg: Algorithm)
    ensures
        algorithm_named(alg.text()) == (if alg.is_published() {
            Some(alg)
        } else {
            None
        }),
{
    lemma_names();
}

/// Three characters tell any two of the names apart.
proof fn lemma_names()
    ensures
        "HS256"@.len() == 5,
        "HS256"@[0] == 'H' && "HS256"@[1] == 'S' && "HS256"@[2] == '2',
        "HS384"@.len() == 5,
        "HS384"@[0] == 'H' && "HS384"@[1] == 'S' && "HS384"@[2] == '3',
        "HS512"@.len() == 5,
        "HS512"@[0] == 'H' && "HS512"@[1] == 'S' && "HS512"@[2] == '5',
        "ES256"@.len() == 5,
        "ES256"@[0] == 'E' && "ES256"@[1] == 'S' && "ES256"@[2] == '2',
        "ES384"@.len() == 5,
        "ES384"@[0] == 'E' && "ES384"@[1] == 'S' && "ES384"@[2] == '3',
        "RS256"@.len() == 5,
        "RS256"@[0] == 'R' && "RS256"@[1] == 'S' && "RS256"@[2] == '2',
        "RS384"@.len() == 5,
        "RS384"@[0] == 'R' && "RS384"@[1] == 'S' && "RS384"@[2] == '3',
        "RS512"@.len() == 5,
        "RS512"@[0] == 'R' && "RS512"@[1] == 'S' && "RS512"@[2] == '5',
        "PS256"@.len() == 5,
        "PS256"@[0] == 'P' && "PS256"@[1] == 'S' && "PS256"@[2] == '2',
        "PS384"@.len() == 5,
        "PS384"@[0] == 'P' && "PS384"@[1] == 'S' && "PS384"@[2] == '3',
        "PS512"@.len() == 5,
        "PS512"@[0] == 'P' && "PS512"@[1] == 'S' && "PS512"@[2] == '5',
        "EdDSA"@.len() == 5,
        "EdDSA"@[0] == 'E' && "EdDSA"@[1] == 'd' && "EdDSA"@[2] == 'D',
{
    reveal_strlit("HS256");
    reveal_strlit("HS384");
    reveal_strlit("HS512");
    reveal_strlit("ES256");
    reveal_strlit("ES384");
    reveal_strlit("RS256");
    reveal_strlit("RS384");
    reveal_strlit("RS512");
    reveal_strlit("PS256");
    reveal_strlit("PS384");
    reveal_strlit("PS512");
    reveal_strlit("EdDSA");
}

/// A name that is read as an algorithm is the name of that algorithm, and no
/// symmetric algorithm is ever read.
pub proof fn law_read_names_are_published(text: Seq<char>)
    ensures
        algorithm_named(text) matches Some(alg) ==> alg.text() == text && alg.is_published(),
{
}

/// A published key can name eight algorithms, each by one text, and no text
/// but these names one.
pub proof fn law_keys_name_eight_algorithms(text: Seq<char>, alg: Algorithm)
    ensures
        algorithm_named(text) == Some(alg) <==> {
            ||| text == "RS256"@ && alg is RS256
            ||| text == "RS384"@ && alg is RS384
            ||| text == "RS512"@ && alg is RS512
            ||| text == "ES256"@ && alg is ES256
            ||| text == "ES384"@ && alg is ES384
            ||| text == "PS256"@ && alg is PS256
            ||| text == "PS384"@ && alg is PS384
            ||| text == "PS512"@ && alg is PS512
        },
{
    law_published_names_read_back(alg);
    law_read_names_are_published(text);
}

/// The first two letters of a name tell what its algorithm takes: a shared
/// secret ("HS"), or a key that can be published ("RS", "PS" and "ES"). No two
/// algorithms share a name.
pub proof fn law_names_tell_the_family(alg: Algorithm, other: Algorithm)
    ensures
        alg.text().len() == 5,
        alg.is_symmetric() <==> alg.text()[0] == 'H' && alg.text()[1] == 'S',
        alg.is_published() <==> alg.text()[0] != 'H' && alg.text()[1] == 'S',
        alg.text() == other.text() ==> alg == other,
        alg.text() == "HS256"@ <==> alg is HS256,
        alg.text() == "HS384"@ <==> alg is HS384,
        alg.text() == "HS512"@ <==> alg is HS512,
        alg.text() == "EdDSA"@ <==> alg is EdDSA,
        alg.is_symmetric() <==> alg is HS256 || alg is HS384 || alg is HS512,
        alg.is_published() <==> !(alg is HS256 || alg is HS384 || alg is HS512 || alg is EdDSA),
{
    lemma_names();
}

} // verus!
