//! What the provisioning tool decides from its arguments: which network
//! address an endpoint stands for, how the users are split into batches, and
//! what is said when a setting is missing.

use vstd::prelude::*;
use vstd::string::StringExecFns;
use crate::identity::{from_text_spec, Identity};

verus! {

/// The arguments of the `create` subcommand.
#[derive(Clone, Debug, PartialEq, Eq, Hash)]
pub struct CreateWalletArgs {
    /// The path to a file containing a list of user ids to create wallets for.
    pub user_ids_path: String,
    /// The initial cycles that the wallet will contain.
    pub cycles: u64,
    /// The path to the wasm code that needs to be installed on the wallet.
    pub wasm_path: String,
    /// The endpoint to use, as `<host>:<port>` or the name of a network.
    pub endpoint: String,
    /// Output file for storing the wallet ids that are created.
    pub out: String,
    /// How many wallets will be created in parallel.
    pub batch_size: usize,
}

/// The arguments of the `install` subcommand.
#[derive(Clone, Debug, PartialEq, Eq, Hash)]
pub struct InstallWalletArgs {
    /// The wallet id to install code.
    pub wallet_id: String,
    /// The path to the wasm code that needs to be installed on the wallet.
    pub wasm_path: String,
    /// The endpoint to use, as `<host>:<port>` or the name of a network.
    pub endpoint: String,
}

/// The arguments of the `set-controller` subcommand.
#[derive(Clone, Debug, PartialEq, Eq, Hash)]
pub struct SetControllerWalletArgs {
    /// The wallet id to set the controller for.
    pub wallet_id: String,
    /// The user to be set as the controller for the wallet.
    pub user_id: String,
    /// The endpoint to use, as `<host>:<port>` or the name of a network.
    pub endpoint: String,
}

/// The arguments of the `top-up` subcommand.
#[derive(Clone, Debug, PartialEq, Eq, Hash)]
pub struct TopUpArgs {
    /// The wallet id to set funds for.
    pub wallet_id: String,
    /// The amount of cycles to add to the balance of the wallet.
    pub cycles: u64,
    /// The endpoint to use, as `<host>:<port>` or the name of a network.
    pub endpoint: String,
}

impl CreateWalletArgs {
    /// Returns the number of cycles to seed the wallet with.
    pub fn cycles(&self) -> (r: u64)
        ensures
            r == self.cycles,
    {
        self.cycles
    }

    /// Returns the endpoint to use.
    pub fn endpoint(&self) -> (r: String)
        ensures
            r == self.endpoint,
    {
        self.endpoint.clone()
    }

    /// Returns the path of the file that the wallet ids are written to.
    pub fn out(&self) -> (r: String)
        ensures
            r == self.out,
    {
        self.out.clone()
    }

    /// Returns how many wallets are created in parallel.
    pub fn batch_size(&self) -> (r: usize)
        ensures
            r == self.batch_size,
    {
        self.batch_size
    }
}

impl InstallWalletArgs {
    /// Returns the endpoint to use.
    pub fn endpoint(&self) -> (r: String)
        ensures
            r == self.endpoint,
    {
        self.endpoint.clone()
    }
}

impl SetControllerWalletArgs {
    /// Returns the endpoint to use.
    pub fn endpoint(&self) -> (r: String)
        ensures
            r == self.endpoint,
    {
        self.endpoint.clone()
    }
}

impl TopUpArgs {
    /// Returns the number of cycles to be added to the balance.
    pub fn cycles(&self) -> (r: u64)
        ensures
            r == self.cycles,
    {
        self.cycles
    }

    /// Returns the endpoint to use.
    pub fn endpoint(&self) -> (r: String)
        ensures
            r == self.endpoint,
    {
        self.endpoint.clone()
    }
}

/// The lines of a text, without their line endings.
pub uninterp spec fn text_lines(text: Seq<char>) -> Seq<Seq<char>>;

/// `str::lines`: the lines of a text, each without its line ending (a newline,
/// or a carriage return and a newline), as strings of their own. The lines are
/// a function of the text alone.
#[verifier::external_body]
fn lines_of(text: &str) -> (r: Vec<String>)
    ensures
        r@.len() == text_lines(text@).len(),
        forall|i: int| 0 <= i < r@.len() ==> (#[trigger] r@[i])@ == text_lines(text@)[i],
{
    text.lines().map(|line| line.to_string()).collect()
}

/// What is said of a text that should name a user and names none.
pub open spec fn invalid_user_id_message(text: Seq<char>, error: Seq<char>) -> Seq<char> {
    "Invalid user id `"@ + text + "`: "@ + error
}

/// What is said of a text that should name a wallet and names none.
pub open spec fn invalid_wallet_id_message(text: Seq<char>, error: Seq<char>) -> Seq<char> {
    "Invalid wallet id `"@ + text + "`: "@ + error
}

/// The user that a text names, or what is said of a text that names none.
pub open spec fn user_id_spec(text: Seq<char>) -> Result<Seq<u8>, Seq<char>> {
    match from_text_spec(text) {
        Ok(bytes) => Ok(bytes),
        Err(e) => Err(invalid_user_id_message(text, e)),
    }
}

/// The users that the first `n` lines name, or what is said of the first
/// among them that names none.
pub open spec fn user_ids_spec(lines: Seq<Seq<char>>, n: int) -> Result<Seq<Seq<u8>>, Seq<char>>
    decreases n,
{
    if n <= 0 {
        Ok(Seq::empty())
    } else {
        match user_ids_spec(lines, n - 1) {
            Err(e) => Err(e),
            Ok(ids) => match user_id_spec(lines[n - 1]) {
                Ok(bytes) => Ok(ids.push(bytes)),
                Err(e) => Err(e),
            },
        }
    }
}

/// Once a beginning of the lines names a user wrongly, every longer one does,
/// and what is said stays the same.
pub proof fn lemma_user_ids_error(lines: Seq<Seq<char>>, n: int, m: int)
    requires
        0 <= n <= m,
        user_ids_spec(lines, n) is Err,
    ensures
        user_ids_spec(lines, m) == user_ids_spec(lines, n),
    decreases m - n,
{
    if n < m {
        lemma_user_ids_error(lines, n, m - 1);
    }
}

/// The user that a text names, or what is said of a text that names none.
pub fn parse_user_id(text: &str) -> (r: Result<Identity, String>)
    ensures
        match user_id_spec(text@) {
            Ok(bytes) => r matches Ok(id) && id@ == bytes,
            Err(e) => r matches Err(message) && message@ == e,
        },
{
    match Identity::from_text(text) {
        Ok(id) => Ok(id),
        Err(error) => Err(
            String::from_str("Invalid user id `").concat(text).concat("`: ").concat(
                error.as_str(),
            ),
        ),
    }
}

/// The wallet that a text names, or what is said of a text that names none.
pub fn parse_wallet_id(wallet_id: &str) -> (r: Result<Identity, String>)
    ensures
        match from_text_spec(wallet_id@) {
            Ok(bytes) => r matches Ok(id) && id@ == bytes,
            Err(e) => r matches Err(message) && message@ == invalid_wallet_id_message(
                wallet_id@,
                e,
            ),
        },
{
    match Identity::from_text(wallet_id) {
        Ok(id) => Ok(id),
        Err(error) => Err(
            String::from_str("Invalid wallet id `").concat(wallet_id).concat("`: ").concat(
                error.as_str(),
            ),
        ),
    }
}

/// The users that the lines of a text name, one on each line, or what is said
/// of the first line that names none.
pub fn parse_user_ids(contents: &str) -> (r: Result<Vec<Identity>, String>)
    ensures
        match user_ids_spec(text_lines(contents@), text_lines(contents@).len() as int) {
            Ok(ids) => r matches Ok(v) && v@.len() == ids.len() && forall|i: int|
                0 <= i < ids.len() ==> (#[trigger] v@[i])@ == ids[i],
            Err(e) => r matches Err(message) && message@ == e,
        },
{
    let lines = lines_of(contents);
    let ghost texts = text_lines(contents@);
    let mut res: Vec<Identity> = Vec::new();
    let mut i: usize = 0;
    while i < lines.len()
        invariant
            i <= lines@.len(),
            texts == text_lines(contents@),
            lines@.len() == texts.len(),
            forall|k: int| 0 <= k < lines@.len() ==> (#[trigger] lines@[k])@ == texts[k],
            user_ids_spec(texts, i as int) matches Ok(ids) && res@.len() == ids.len()
                && forall|k: int| 0 <= k < ids.len() ==> (#[trigger] res@[k])@ == ids[k],
        decreases lines@.len() - i,
    {
        match parse_user_id(lines[i].as_str()) {
            Ok(id) => {
                res.push(id);
            },
            Err(message) => {
                proof {
                    lemma_user_ids_error(texts, i + 1, texts.len() as int);
                }
                return Err(message);
            },
        }
        i += 1;
    }
    Ok(res)
}

impl CreateWalletArgs {
    /// Returns the list of user ids as read from the contents of the input
    /// file. Each line is expected to hold a single user id.
    pub fn user_ids(&self, contents: &str) -> (r: Result<Vec<Identity>, String>)
        ensures
            match user_ids_spec(text_lines(contents@), text_lines(contents@).len() as int) {
                Ok(ids) => r matches Ok(v) && v@.len() == ids.len() && forall|i: int|
                    0 <= i < ids.len() ==> (#[trigger] v@[i])@ == ids[i],
                Err(e) => r matches Err(message) && message@ == e,
            },
    {
        parse_user_ids(contents)
    }
}

impl SetControllerWalletArgs {
    /// Returns the user that is to become the controller.
    pub fn user_id(&self) -> (r: Result<Identity, String>)
        ensures
            match user_id_spec(self.user_id@) {
                Ok(bytes) => r matches Ok(id) && id@ == bytes,
                Err(e) => r matches Err(message) && message@ == e,
            },
    {
        parse_user_id(self.user_id.as_str())
    }
}

/// The value of a setting of the environment, or the complaint that it is missing.
pub open spec fn expect_env_var_spec(name: Seq<char>, value: Option<String>) -> Result<
    Seq<char>,
    Seq<char>,
> {
    match value {
        Some(v) => Ok(v@),
        None => Err("Need to specify the "@ + name + " environment variable"@),
    }
}

/// The value of the setting `name` of the environment, or the complaint that
/// it is missing. `value` is what the environment holds under that name.
pub fn expect_env_var(name: &str, value: Option<String>) -> (r: Result<String, String>)
    ensures
        match expect_env_var_spec(name@, value) {
            Ok(v) => r matches Ok(s) && s@ == v,
            Err(e) => r matches Err(s) && s@ == e,
        },
{
    match value {
        Some(v) => Ok(v),
        None => {
            let message = String::from_str("Need to specify the ").concat(name).concat(
                " environment variable",
            );
            Err(message)
        },
    }
}

/// The pin of the hardware key, or the complaint that the setting `HSM_PIN`
/// is missing. `value` is what the environment holds under that name.
pub fn get_hsm_pin(value: Option<String>) -> (r: Result<String, String>)
    ensures
        match expect_env_var_spec("HSM_PIN"@, value) {
            Ok(v) => r matches Ok(s) && s@ == v,
            Err(e) => r matches Err(s) && s@ == e,
        },
{
    expect_env_var("HSM_PIN", value)
}

/// The address that an endpoint stands for: the gateway of the network for
/// the names `sodium` and `mercury`, else the endpoint itself over http.
pub open spec fn endpoint_url_spec(endpoint: Seq<char>) -> Seq<char> {
    if endpoint == "sodium"@ {
        "https://gw.dfinity.network"@
    } else if endpoint == "mercury"@ {
        "https://mercury.dfinity.network"@
    } else {
        "http://"@ + endpoint
    }
}

/// The address that an endpoint stands for.
pub fn endpoint_url(endpoint: &String) -> (r: String)
    ensures
        r@ == endpoint_url_spec(endpoint@),
{
    if *endpoint == String::from_str("sodium") {
        String::from_str("https://gw.dfinity.network")
    } else if *endpoint == String::from_str("mercury") {
        String::from_str("https://mercury.dfinity.network")
    } else {
        String::from_str("http://").concat(endpoint.as_str())
    }
}

/// The batch that holds the users at positions `[start, start + size)`, as
/// far as there are users.
pub open spec fn batch_spec(users: Seq<Identity>, start: int, size: int) -> Seq<Identity> {
    users.subrange(
        start,
        if start + size > users.len() {
            users.len() as int
        } else {
            start + size
        },
    )
}

/// The number of batches of `size` users that `count` users fill.
pub open spec fn batch_count_spec(count: int, size: int) -> int {
    (count + size - 1) / size
}

/// Splits the users into batches of `batch_size`, in order; the last batch
/// holds what is left.
pub fn batches(users: &Vec<Identity>, batch_size: usize) -> (r: Vec<Vec<Identity>>)
    requires
        batch_size > 0,
    ensures
        r@.len() == batch_count_spec(users@.len() as int, batch_size as int),
        forall|k: int|
            0 <= k < r@.len() ==> (#[trigger] r@[k])@ == batch_spec(
                users@,
                k * batch_size,
                batch_size as int,
            ),
{
    let mut out: Vec<Vec<Identity>> = Vec::new();
    let mut start: usize = 0;
    proof {
        assert(batch_count_spec(0, batch_size as int) == 0) by (nonlinear_arith)
            requires
                batch_size > 0,
        ;
    }
    while start < users.len()
        invariant
            batch_size > 0,
            start <= users@.len(),
            out@.len() == batch_count_spec(start as int, batch_size as int),
            start < users@.len() ==> start == out@.len() * batch_size,
            forall|k: int|
                0 <= k < out@.len() ==> (#[trigger] out@[k])@ == batch_spec(
                    users@,
                    k * batch_size,
                    batch_size as int,
                ),
        decreases users@.len() - start,
    {
        let end: usize = if users.len() - start < batch_size {
            users.len()
        } else {
            start + batch_size
        };
        let mut batch: Vec<Identity> = Vec::new();
        let mut i: usize = start;
        while i < end
            invariant
                start <= i <= end <= users@.len(),
                batch@ == users@.subrange(start as int, i as int),
            decreases end - i,
        {
            batch.push(users[i]);
            i += 1;
        }
        proof {
            let k = out@.len() as int;
            let b = batch_size as int;
            assert(batch_count_spec(k * b, b) == k) by (nonlinear_arith)
                requires
                    b > 0,
                    k >= 0,
            ;
            if end == users@.len() {
                assert(batch_count_spec(users@.len() as int, b) == k + 1) by (nonlinear_arith)
                    requires
                        b > 0,
                        k >= 0,
                        k * b < users@.len() <= k * b + b,
                ;
            } else {
                assert((k + 1) * b == k * b + b) by (nonlinear_arith);
                assert(batch_count_spec((k + 1) * b, b) == k + 1) by (nonlinear_arith)
                    requires
                        b > 0,
                        k >= 0,
                ;
            }
        }
        out.push(batch);
        start = end;
    }
    out
}

} // verus!
