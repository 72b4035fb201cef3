use vstd::prelude::*;
use vstd::string::*;

use crate::config::Config;
use crate::status::Status;

verus! {

/// `i` is the position of the first `:` in `value`.
pub open spec fn is_first_colon(value: Seq<char>, i: int) -> bool {
    &&& 0 <= i < value.len()
    &&& value[i] == ':'
    &&& forall|j: int| 0 <= j < i ==> value[j] != ':'
}

/// An `Authorization` value of the form `login:password`, split at its first
/// `:`; `None` when it holds no `:`.
pub open spec fn credentials_of(value: Seq<char>) -> Option<(Seq<char>, Seq<char>)> {
    if exists|i: int| is_first_colon(value, i) {
        let i = choose|i: int| is_first_colon(value, i);
        Some((value.take(i), value.skip(i + 1)))
    } else {
        None
    }
}

/// The value names exactly the configured login and password.
pub open spec fn accepts(value: Seq<char>, login: Seq<char>, password: Seq<char>) -> bool {
    match credentials_of(value) {
        Some((l, p)) => l == login && p == password,
        None => false,
    }
}

/// The first colon, where there is one, is unique.
proof fn lemma_first_colon_unique(value: Seq<char>, i: int, k: int)
    requires
        is_first_colon(value, i),
        is_first_colon(value, k),
    ensures
        i == k,
{
    if i < k {
        assert(value[i] != ':');
    } else if k < i {
        assert(value[k] != ':');
    }
}

/// Splits an `Authorization` value at its first `:` into login and password.
pub fn split_credentials(value: &str) -> (res: Option<(String, String)>)
    ensures
        match credentials_of(value@) {
            Some((l, p)) => match res {
                Some((login, password)) => login@ == l && password@ == p,
                None => false,
            },
            None => res is None,
        },
{
    let len = value.unicode_len();
    let mut i: usize = 0;
    while i < len
        invariant
            len == value@.len(),
            i <= len,
            forall|j: int| 0 <= j < i ==> value@[j] != ':',
        decreases len - i,
    {
        if value.get_char(i) == ':' {
            assert(is_first_colon(value@, i as int));
            let login = value.substring_char(0, i).to_owned();
            let password = value.substring_char(i + 1, len).to_owned();
            proof {
                let k = choose|k: int| is_first_colon(value@, k);
                lemma_first_colon_unique(value@, i as int, k);
                assert(login@ =~= value@.take(i as int));
                assert(password@ =~= value@.skip(i + 1));
            }
            return Some((login, password));
        }
        i = i + 1;
    }
    assert(!exists|k: int| is_first_colon(value@, k));
    None
}

/// Decides whether a request to the protected API may proceed: it needs an
/// `Authorization` value `login:password` whose parts equal the configured
/// ones; otherwise the answer is 401.
pub fn authorize(header: Option<&str>, config: &Config) -> (res: Result<(), Status>)
    ensures
        res is Ok <==> (header is Some && accepts(header->0@, config.login@, config.password@)),
        res is Err ==> res->Err_0 == Status::Unauthorized,
{
    let value = match header {
        Some(v) => v,
        None => return Err(Status::Unauthorized),
    };
    match split_credentials(value) {
        Some((login, password)) => {
            if login == config.login && password == config.password {
                Ok(())
            } else {
                Err(Status::Unauthorized)
            }
        },
        None => Err(Status::Unauthorized),
    }
}

/// A value is accepted exactly when it is the configured login, a `:`, and
/// the configured password, and the login holds no `:` of its own.
pub proof fn lemma_accepts_exactly_own_credentials(value: Seq<char>, login: Seq<char>, password: Seq<char>)
    ensures
        accepts(value, login, password) <==> (!login.contains(':') && value == login + seq![':'] + password),
{
    let built = login + seq![':'] + password;
    if accepts(value, login, password) {
        let i = choose|i: int| is_first_colon(value, i);
        assert(value.take(i) == login);
        assert(value.skip(i + 1) == password);
        assert(value =~= value.take(i) + seq![':'] + value.skip(i + 1));
        if login.contains(':') {
            let j = choose|j: int| 0 <= j < login.len() && login[j] == ':';
            assert(value[j] == login[j]);
        }
    }
    if !login.contains(':') && value == built {
        let i = login.len() as int;
        assert forall|j: int| 0 <= j < i implies value[j] != ':' by {
            assert(value[j] == login[j]);
            if login[j] == ':' {
                assert(login.contains(':'));
            }
        }
        assert(is_first_colon(value, i));
        let k = choose|k: int| is_first_colon(value, k);
        lemma_first_colon_unique(value, i, k);
        assert(value.take(i) =~= login);
        assert(value.skip(i + 1) =~= password);
    }
}

} // verus!
