use vstd::prelude::*;

use crate::b64::{b64url_decode, b64url_decoded};
use crate::json::{
    json_get_str, json_get_u64, json_obj_ok, json_obj_strs, json_obj_u64s, parse_json_object,
};
use vstd::string::{StrSliceExecFns, StringExecFns};

verus! {

/// The decomposition of a compact token into exactly three dot-separated
/// segments: no segment contains a dot, and the whole string is the three
/// segments joined by single dots.
pub open spec fn is_split3(s: Seq<char>, h: Seq<char>, p: Seq<char>, g: Seq<char>) -> bool {
    &&& s == h + seq!['.'] + p + seq!['.'] + g
    &&& !h.contains('.')
    &&& !p.contains('.')
    &&& !g.contains('.')
}

/// A well-formed token header: a JSON object with string members `alg` and
/// `typ`.
pub open spec fn jwt_header_ok(b: Seq<u8>) -> bool {
    &&& json_obj_ok(b)
    &&& json_obj_strs(b).contains_key("alg"@)
    &&& json_obj_strs(b).contains_key("typ"@)
}

/// Well-formed token claims: a JSON object with string members `aud`, `iss`
/// and `sub`, and unsigned integer members `exp` and `iat`.
pub open spec fn jwt_claims_ok(b: Seq<u8>) -> bool {
    &&& json_obj_ok(b)
    &&& json_obj_strs(b).contains_key("aud"@)
    &&& json_obj_u64s(b).contains_key("exp"@)
    &&& json_obj_u64s(b).contains_key("iat"@)
    &&& json_obj_strs(b).contains_key("iss"@)
    &&& json_obj_strs(b).contains_key("sub"@)
}

/// The three segments of a compact token, where it has exactly two dots;
/// by `lemma_split3_unique` there is at most one such decomposition.
pub open spec fn split3(s: Seq<char>) -> Option<(Seq<char>, Seq<char>, Seq<char>)> {
    if exists|hpg: (Seq<char>, Seq<char>, Seq<char>)| #[trigger] is_split3(
        s,
        hpg.0,
        hpg.1,
        hpg.2,
    ) {
        Some(
            choose|hpg: (Seq<char>, Seq<char>, Seq<char>)| #[trigger] is_split3(
                s,
                hpg.0,
                hpg.1,
                hpg.2,
            ),
        )
    } else {
        None
    }
}

/// A decodable token: exactly three segments, the first two of which are
/// base64url encodings of well-formed header and claims objects, the third
/// a base64url signature.
pub open spec fn jwt_wf(s: Seq<char>) -> bool {
    &&& split3(s) matches Some(hpg)
    &&& b64url_decoded(hpg.0) matches Some(hb) && jwt_header_ok(hb)
    &&& b64url_decoded(hpg.1) matches Some(pb) && jwt_claims_ok(pb)
    &&& b64url_decoded(hpg.2) is Some
}

/// In a three-way decomposition the dots stand exactly at the two join
/// positions.
proof fn lemma_split3_dots(s: Seq<char>, h: Seq<char>, p: Seq<char>, g: Seq<char>)
    requires
        is_split3(s, h, p, g),
    ensures
        s.len() == h.len() + p.len() + g.len() + 2,
        forall|i: int|
            0 <= i < s.len() ==> (s[i] == '.' <==> (i == h.len() || i == h.len() + p.len() + 1)),
{
    assert forall|i: int|
        0 <= i < s.len() implies (s[i] == '.' <==> (i == h.len() || i == h.len() + p.len()
        + 1)) by {
        if i < h.len() {
            assert(s[i] == h[i]);
            if s[i] == '.' {
                assert(h.contains('.'));
            }
        } else if i == h.len() {
            assert(s[i] == '.');
        } else if i < h.len() + p.len() + 1 {
            assert(s[i] == p[i - h.len() - 1]);
            if s[i] == '.' {
                assert(p.contains('.'));
            }
        } else if i == h.len() + p.len() + 1 {
            assert(s[i] == '.');
        } else {
            assert(s[i] == g[i - h.len() - p.len() - 2]);
            if s[i] == '.' {
                assert(g.contains('.'));
            }
        }
    }
}

/// A string decomposes into three dot-separated segments in at most one
/// way.
proof fn lemma_split3_unique(
    s: Seq<char>,
    h1: Seq<char>,
    p1: Seq<char>,
    g1: Seq<char>,
    h2: Seq<char>,
    p2: Seq<char>,
    g2: Seq<char>,
)
    requires
        is_split3(s, h1, p1, g1),
        is_split3(s, h2, p2, g2),
    ensures
        h1 == h2,
        p1 == p2,
        g1 == g2,
{
    lemma_split3_dots(s, h1, p1, g1);
    lemma_split3_dots(s, h2, p2, g2);
    let a1 = h1.len() as int;
    let b1 = h1.len() + p1.len() + 1 as int;
    let a2 = h2.len() as int;
    let b2 = h2.len() + p2.len() + 1 as int;
    assert(s[a2] == '.');
    assert(s[b2] == '.');
    if a2 != a1 {
        assert(a2 == b1);
        assert(a1 == b2 || a1 == a2);
        assert(false);
    }
    assert(a1 == a2);
    if b2 != b1 {
        assert(b2 == a1);
        assert(false);
    }
    assert(h1 =~= h2) by {
        assert forall|i: int| 0 <= i < h1.len() implies h1[i] == h2[i] by {
            assert(s[i] == h1[i]);
            assert(s[i] == h2[i]);
        }
    }
    assert(p1 =~= p2) by {
        assert forall|i: int| 0 <= i < p1.len() implies p1[i] == p2[i] by {
            assert(s[a1 + 1 + i] == p1[i]);
            assert(s[a2 + 1 + i] == p2[i]);
        }
    }
    assert(g1 =~= g2) by {
        assert forall|i: int| 0 <= i < g1.len() implies g1[i] == g2[i] by {
            assert(s[b1 + 1 + i] == g1[i]);
            assert(s[b2 + 1 + i] == g2[i]);
        }
    }
}

/// Whichever three segments satisfy the decomposition are the ones
/// `split3` names.
pub(crate) proof fn lemma_split3_is(s: Seq<char>, h: Seq<char>, p: Seq<char>, g: Seq<char>)
    requires
        is_split3(s, h, p, g),
    ensures
        split3(s) == Some((h, p, g)),
{
    let hpg = (h, p, g);
    assert(is_split3(s, hpg.0, hpg.1, hpg.2));
    let c = choose|hpg2: (Seq<char>, Seq<char>, Seq<char>)| #[trigger] is_split3(
        s,
        hpg2.0,
        hpg2.1,
        hpg2.2,
    );
    lemma_split3_unique(s, c.0, c.1, c.2, h, p, g);
}

/// Cuts a compact token at its dots, where it has exactly two.
pub(crate) fn split_token(s: &str) -> (r: Option<(String, String, String)>)
    ensures
        r matches Some(t) ==> split3(s@) == Some((t.0@, t.1@, t.2@)),
        r is None ==> split3(s@) is None,
{
    let n = s.unicode_len();
    let mut count: usize = 0;
    let mut d0: usize = 0;
    let mut d1: usize = 0;
    let mut d2: usize = 0;
    let mut i: usize = 0;
    while i < n
        invariant
            n == s@.len(),
            0 <= i <= n,
            count <= i,
            count == 0 ==> forall|j: int| 0 <= j < i ==> s@[j] != '.',
            count == 1 ==> 0 <= d0 < i && s@[d0 as int] == '.' && forall|j: int|
                0 <= j < i && j != d0 ==> s@[j] != '.',
            count == 2 ==> 0 <= d0 < d1 < i && s@[d0 as int] == '.' && s@[d1 as int] == '.'
                && forall|j: int| 0 <= j < i && j != d0 && j != d1 ==> s@[j] != '.',
            count >= 3 ==> 0 <= d0 < d1 < d2 < i && s@[d0 as int] == '.' && s@[d1 as int] == '.'
                && s@[d2 as int] == '.',
        decreases n - i,
    {
        let c = s.get_char(i);
        if c == '.' {
            if count == 0 {
                d0 = i;
            } else if count == 1 {
                d1 = i;
            } else if count == 2 {
                d2 = i;
            }
            count = count + 1;
        }
        i = i + 1;
    }
    if count != 2 {
        proof {
            assert forall|hpg: (Seq<char>, Seq<char>, Seq<char>)| !is_split3(
                s@,
                hpg.0,
                hpg.1,
                hpg.2,
            ) by {
                if is_split3(s@, hpg.0, hpg.1, hpg.2) {
                    lemma_split3_dots(s@, hpg.0, hpg.1, hpg.2);
                    let a = hpg.0.len() as int;
                    let b = hpg.0.len() + hpg.1.len() + 1 as int;
                    assert(s@[a] == '.');
                    assert(s@[b] == '.');
                    if count == 0 {
                        assert(false);
                    } else if count == 1 {
                        assert(a == d0 && b == d0);
                        assert(false);
                    } else {
                        assert(d0 == a || d0 == b);
                        assert(d1 == a || d1 == b);
                        assert(d2 == a || d2 == b);
                        assert(false);
                    }
                }
            }
            assert(split3(s@) is None);
        }
        return None;
    }
    let h = s.substring_char(0, d0);
    let p = s.substring_char(d0 + 1, d1);
    let g = s.substring_char(d1 + 1, n);
    proof {
        assert(s@ =~= h@ + seq!['.'] + p@ + seq!['.'] + g@);
        assert(!h@.contains('.')) by {
            if h@.contains('.') {
                let k = choose|k: int| 0 <= k < h@.len() && h@[k] == '.';
                assert(s@[k] == '.');
                assert(false);
            }
        }
        assert(!p@.contains('.')) by {
            if p@.contains('.') {
                let k = choose|k: int| 0 <= k < p@.len() && p@[k] == '.';
                assert(s@[d0 + 1 + k] == '.');
                assert(false);
            }
        }
        assert(!g@.contains('.')) by {
            if g@.contains('.') {
                let k = choose|k: int| 0 <= k < g@.len() && g@[k] == '.';
                assert(s@[d1 + 1 + k] == '.');
                assert(false);
            }
        }
        lemma_split3_is(s@, h@, p@, g@);
    }
    Some((String::from_str(h), String::from_str(p), String::from_str(g)))
}

/// A decoded compact token, before any claim is judged.
#[derive(Debug)]
pub struct IdToken {
    pub header: Header,
    pub claims: Claims,
    pub signature: Vec<u8>,
}

/// The two header members every token must carry.
#[derive(Clone, Debug)]
pub struct Header {
    pub alg: String,
    pub typ: String,
}

/// The claims every token must carry.
#[derive(Clone, Debug)]
pub struct Claims {
    pub aud: String,
    pub exp: u64,
    pub iat: u64,
    pub iss: String,
    pub sub: String,
}

/// The one decoding failure: the token is not a well-formed compact token.
#[derive(Clone, Debug)]
pub enum IdTokenDecodingError {
    InvalidFormat,
}

/// Decodes compact tokens structurally; it judges shape only, never
/// signatures or claim values.
pub struct IdTokenDecoder {}

impl IdTokenDecoder {
    pub fn new() -> (r: Self) {
        IdTokenDecoder {  }
    }

    /// Splits the token at its dots, base64url-decodes the three segments
    /// and reads the header and claims objects; every malformed shape is
    /// the same error.
    pub fn execute(&self, raw_token: &str) -> (r: Result<IdToken, IdTokenDecodingError>)
        ensures
            r is Ok <==> jwt_wf(raw_token@),
            r matches Ok(t) ==> ({
                let hpg = split3(raw_token@)->Some_0;
                let hb = b64url_decoded(hpg.0)->Some_0;
                let pb = b64url_decoded(hpg.1)->Some_0;
                &&& t.header.alg@ == json_obj_strs(hb)["alg"@]
                &&& t.header.typ@ == json_obj_strs(hb)["typ"@]
                &&& t.claims.aud@ == json_obj_strs(pb)["aud"@]
                &&& t.claims.exp == json_obj_u64s(pb)["exp"@]
                &&& t.claims.iat == json_obj_u64s(pb)["iat"@]
                &&& t.claims.iss@ == json_obj_strs(pb)["iss"@]
                &&& t.claims.sub@ == json_obj_strs(pb)["sub"@]
                &&& b64url_decoded(hpg.2) == Some(t.signature@)
            }),
    {
        let parts = match split_token(raw_token) {
            Some(t) => t,
            None => {
                return Err(IdTokenDecodingError::InvalidFormat);
            },
        };
        let header_bytes = match b64url_decode(parts.0.as_str()) {
            Some(b) => b,
            None => {
                return Err(IdTokenDecodingError::InvalidFormat);
            },
        };
        let payload_bytes = match b64url_decode(parts.1.as_str()) {
            Some(b) => b,
            None => {
                return Err(IdTokenDecodingError::InvalidFormat);
            },
        };
        let signature = match b64url_decode(parts.2.as_str()) {
            Some(b) => b,
            None => {
                return Err(IdTokenDecodingError::InvalidFormat);
            },
        };
        let header_map = match parse_json_object(header_bytes.as_slice()) {
            Some(m) => m,
            None => {
                return Err(IdTokenDecodingError::InvalidFormat);
            },
        };
        let alg = match json_get_str(&header_map, "alg") {
            Some(s) => s,
            None => {
                return Err(IdTokenDecodingError::InvalidFormat);
            },
        };
        let typ = match json_get_str(&header_map, "typ") {
            Some(s) => s,
            None => {
                return Err(IdTokenDecodingError::InvalidFormat);
            },
        };
        let claims_map = match parse_json_object(payload_bytes.as_slice()) {
            Some(m) => m,
            None => {
                return Err(IdTokenDecodingError::InvalidFormat);
            },
        };
        let aud = match json_get_str(&claims_map, "aud") {
            Some(s) => s,
            None => {
                return Err(IdTokenDecodingError::InvalidFormat);
            },
        };
        let exp = match json_get_u64(&claims_map, "exp") {
            Some(x) => x,
            None => {
                return Err(IdTokenDecodingError::InvalidFormat);
            },
        };
        let iat = match json_get_u64(&claims_map, "iat") {
            Some(x) => x,
            None => {
                return Err(IdTokenDecodingError::InvalidFormat);
            },
        };
        let iss = match json_get_str(&claims_map, "iss") {
            Some(s) => s,
            None => {
                return Err(IdTokenDecodingError::InvalidFormat);
            },
        };
        let sub = match json_get_str(&claims_map, "sub") {
            Some(s) => s,
            None => {
                return Err(IdTokenDecodingError::InvalidFormat);
            },
        };
        let token = IdToken {
            header: Header { alg, typ },
            claims: Claims { aud, exp, iat, iss, sub },
            signature,
        };
        Ok(token)
    }
}

} // verus!
