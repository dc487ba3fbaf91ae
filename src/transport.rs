use vstd::prelude::*;
use crate::json::Json;

verus! {

/// The HTTP verbs the service is called with.
#[derive(Clone, Copy, Debug, PartialEq, Eq, Structural)]
pub enum Method {
    Get,
    Post,
    Put,
}

/// One HTTP call, ready to be sent: the full URL, the default headers, and the
/// JSON body, if any.
#[derive(Debug)]
pub struct Request {
    pub method: Method,
    pub url: String,
    pub headers: Vec<(String, String)>,
    pub body: Option<Json>,
}

/// The connection settings shared by every resource: where the service lives
/// and the key that authenticates each call.
#[derive(Clone, Debug)]
pub struct Client {
    pub base_url: String,
    pub api_key: String,
}

pub open spec fn digit_char(d: int) -> char {
    if d == 0 {
        '0'
    } else if d == 1 {
        '1'
    } else if d == 2 {
        '2'
    } else if d == 3 {
        '3'
    } else if d == 4 {
        '4'
    } else if d == 5 {
        '5'
    } else if d == 6 {
        '6'
    } else if d == 7 {
        '7'
    } else if d == 8 {
        '8'
    } else {
        '9'
    }
}

/// The decimal digits of a natural number, most significant first.
pub open spec fn digits(n: nat) -> Seq<char>
    decreases n,
{
    if n < 10 {
        seq![digit_char(n as int)]
    } else {
        digits(n / 10) + seq![digit_char((n % 10) as int)]
    }
}

/// The decimal text of an integer, with a leading `-` when it is negative.
pub open spec fn decimal(n: int) -> Seq<char> {
    if n < 0 {
        seq!['-'] + digits((-n) as nat)
    } else {
        digits(n as nat)
    }
}

fn digit_text(d: u64) -> (r: &'static str)
    requires
        d < 10,
    ensures
        r@ == seq![digit_char(d as int)],
{
    proof {
        reveal_strlit("0");
        reveal_strlit("1");
        reveal_strlit("2");
        reveal_strlit("3");
        reveal_strlit("4");
        reveal_strlit("5");
        reveal_strlit("6");
        reveal_strlit("7");
        reveal_strlit("8");
        reveal_strlit("9");
    }
    let r = if d == 0 {
        "0"
    } else if d == 1 {
        "1"
    } else if d == 2 {
        "2"
    } else if d == 3 {
        "3"
    } else if d == 4 {
        "4"
    } else if d == 5 {
        "5"
    } else if d == 6 {
        "6"
    } else if d == 7 {
        "7"
    } else if d == 8 {
        "8"
    } else {
        "9"
    };
    assert(r@ =~= seq![digit_char(d as int)]);
    r
}

/// The decimal text of `n`.
pub fn decimal_text(n: i32) -> (r: String)
    ensures
        r@ == decimal(n as int),
{
    let whole: u64 = if n < 0 {
        (-(n as i64)) as u64
    } else {
        n as u64
    };
    let mut m: u64 = whole / 10;
    let mut s = String::from_str(digit_text(whole % 10));
    while m > 0
        invariant
            m == 0 ==> digits(whole as nat) == s@,
            m > 0 ==> digits(whole as nat) == digits(m as nat) + s@,
        decreases m,
    {
        let d = String::from_str(digit_text(m % 10));
        proof {
            if m >= 10 {
                assert(digits(m as nat) == digits((m / 10) as nat) + seq![digit_char((m % 10) as int)]);
            }
        }
        let ghost old_s = s@;
        s = d.concat(s.as_str());
        assert(s@ =~= seq![digit_char((m % 10) as int)] + old_s);
        m = m / 10;
    }
    if n < 0 {
        let minus = String::from_str("-");
        proof {
            reveal_strlit("-");
        }
        let r = minus.concat(s.as_str());
        assert(r@ =~= seq!['-'] + digits((-(n as int)) as nat));
        r
    } else {
        s
    }
}

impl Client {
    pub fn new(base_url: String, api_key: String) -> (r: Self)
        ensures
            r.base_url == base_url,
            r.api_key == api_key,
    {
        Client { base_url, api_key }
    }

    /// The headers sent with every call: the API key and the JSON content type.
    pub open spec fn spec_headers(&self, h: Seq<(String, String)>) -> bool {
        h.len() == 2 && h[0].0@ == "Authorization"@ && h[0].1@ == "ApiKey "@ + self.api_key@
            && h[1].0@ == "Content-Type"@ && h[1].1@ == "application/json"@
    }

    pub fn headers(&self) -> (r: Vec<(String, String)>)
        ensures
            self.spec_headers(r@),
    {
        let mut r: Vec<(String, String)> = Vec::new();
        let auth = String::from_str("ApiKey ").concat(self.api_key.as_str());
        r.push((String::from_str("Authorization"), auth));
        r.push((String::from_str("Content-Type"), String::from_str("application/json")));
        r
    }

    /// A call of `method` on the server-relative `path`, with `body`.
    pub fn request(&self, method: Method, path: &str, body: Option<Json>) -> (r: Request)
        ensures
            r.method == method,
            r.url@ == self.base_url@ + path@,
            self.spec_headers(r.headers@),
            r.body == body,
    {
        let url = self.base_url.clone().concat(path);
        Request { method, url, headers: self.headers(), body }
    }
}

} // verus!
