//! Names shared by the gateways: settlement file names, API key variables,
//! authorization values, and the file name a download is saved under.

use vstd::prelude::*;
use vstd::string::*;
use crate::text::{decimal_string, decimal_text};

verus! {

/// `./data/_{settle_co}_SP_{sales_date}.csv`.
pub open spec fn settle_file_name(settle_co: Seq<char>, sales_date: Seq<char>) -> Seq<char> {
    "./data/_"@ + settle_co + "_SP_"@ + sales_date + ".csv"@
}

/// The path of the CSV file that the rows of one company for one day are saved in.
pub fn csv_file_name(settle_co: &str, sales_date: &str) -> (r: String)
    ensures
        r@ == settle_file_name(settle_co@, sales_date@),
{
    let mut r = String::from_str("./data/_");
    r.append(settle_co);
    r.append("_SP_");
    r.append(sales_date);
    r.append(".csv");
    r
}

/// The name of the environment variable that holds the `n`-th API key of a
/// gateway, e.g. `NP_APIKEY_1`.
pub fn api_key_var_name(prefix: &str, n: i32) -> (r: String)
    ensures
        r@ == prefix@ + decimal_text(n as int),
{
    let mut r = String::from_str(prefix);
    let number = decimal_string(n as i64);
    r.append(number.as_str());
    r
}

/// An `Authorization` header value: the scheme, a space, and the key.
pub fn authorization_value(scheme: &str, key: &str) -> (r: String)
    ensures
        r@ == scheme@ + " "@ + key@,
{
    let mut r = String::from_str(scheme);
    r.append(" ");
    r.append(key);
    r
}

/// What follows the last `c` in `s`: all of `s` when there is no `c`.
pub open spec fn after_last(s: Seq<char>, c: char) -> Seq<char>
    decreases s.len(),
{
    if s.len() == 0 {
        s
    } else if s.last() == c {
        Seq::empty()
    } else {
        after_last(s.drop_last(), c).push(s.last())
    }
}

proof fn lemma_after_last(s: Seq<char>, c: char, k: int)
    requires
        0 <= k <= s.len(),
        forall|j: int| k <= j < s.len() ==> s[j] != c,
        k > 0 ==> s[k - 1] == c,
    ensures
        after_last(s, c) == s.skip(k),
    decreases s.len(),
{
    if s.len() == 0 {
        assert(s.skip(k) =~= s);
    } else if k == s.len() {
        assert(s.skip(k) =~= Seq::<char>::empty());
    } else {
        lemma_after_last(s.drop_last(), c, k);
        assert(s.skip(k) =~= s.drop_last().skip(k).push(s.last()));
    }
}

/// The file name a download is saved under: the last segment of the URL path
/// when the path has segments and that one is not empty, else `tmp.bin`.
pub open spec fn download_name(url_path: Seq<char>) -> Seq<char> {
    if url_path.len() > 0 && url_path[0] == '/' && after_last(url_path, '/').len() > 0 {
        after_last(url_path, '/')
    } else {
        "tmp.bin"@
    }
}

/// The name under which the body of a download from a URL with the path
/// `url_path` is saved.
pub fn download_file_name(url_path: &str) -> (r: String)
    ensures
        r@ == download_name(url_path@),
{
    let len = url_path.unicode_len();
    if len == 0 || url_path.get_char(0) != '/' {
        return String::from_str("tmp.bin");
    }
    let mut k = len;
    while k > 0
        invariant
            len == url_path@.len(),
            k <= len,
            forall|j: int| k <= j < len ==> url_path@[j] != '/',
        ensures
            k <= len,
            forall|j: int| k <= j < len ==> url_path@[j] != '/',
            k > 0 ==> url_path@[k - 1] == '/',
        decreases k,
    {
        if url_path.get_char(k - 1) == '/' {
            break;
        }
        k = k - 1;
    }
    proof {
        lemma_after_last(url_path@, '/', k as int);
    }
    if k == len {
        String::from_str("tmp.bin")
    } else {
        let last = url_path.substring_char(k, len);
        assert(last@ =~= url_path@.skip(k as int));
        String::from_str(last)
    }
}

/// A download is always saved under a name that is not empty.
pub proof fn lemma_download_name_not_empty(url_path: Seq<char>)
    ensures
        download_name(url_path).len() > 0,
{
    reveal_strlit("tmp.bin");
}

} // verus!
