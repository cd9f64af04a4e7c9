use vstd::prelude::*;
use vstd::string::StrSliceExecFns;
use crate::labels::str_is;
use crate::models::clone_opt_string;

verus! {

/// The subcommands of the non-interactive command line.
#[derive(Debug)]
pub enum Commands {
    /// A full TCS analysis report for one asset, date and predictive chain.
    Run {
        asset_id: String,
        date: String,
        chain_path: String,
        ps1_bias: String,
        ps2_bias: Option<String>,
        output: String,
    },
    /// A raw query of one table.
    Query {
        table: String,
        asset: Option<String>,
        limit: u32,
    },
    /// The configuration and table health.
    Config,
}

/// The latest session context of an asset: the current session and the two
/// before it, with their seven-state biases.
#[derive(Debug)]
pub struct CurrentSessionContext {
    pub cs_name: Option<String>,
    pub cs_bias_7: Option<String>,
    pub ps1_name: Option<String>,
    pub ps1_bias_7: Option<String>,
    pub ps2_name: Option<String>,
    pub ps2_bias_7: Option<String>,
    pub found_session_end_ts: Option<String>,
}

/// Why a chain label could not be read.
#[derive(Debug)]
pub enum ChainError {
    /// The label has no second part (no '_').
    MissingPs1Name,
    /// The label's PS1 session has no session before it in the cycle.
    UnknownPs1Name { ps1_name: String, chain: String },
}

/// The index of the first `c` in `s`, if any.
pub open spec fn first_index_of(s: Seq<char>, c: char) -> Option<int>
    decreases s.len(),
{
    if s.len() == 0 {
        None
    } else if s[0] == c {
        Some(0)
    } else {
        match first_index_of(s.drop_first(), c) {
            Some(i) => Some(i + 1),
            None => None,
        }
    }
}

/// The second '_'-separated part of `s`, if it has one.
pub open spec fn second_part(s: Seq<char>) -> Option<Seq<char>> {
    match first_index_of(s, '_') {
        Some(i) => {
            let rest = s.skip(i + 1);
            match first_index_of(rest, '_') {
                Some(j) => Some(rest.take(j)),
                None => Some(rest),
            }
        },
        None => None,
    }
}

proof fn lemma_first_index(s: Seq<char>, c: char, i: int)
    requires
        0 <= i <= s.len(),
        forall|k: int| 0 <= k < i ==> s[k] != c,
    ensures
        i < s.len() && s[i] == c ==> first_index_of(s, c) == Some(i),
        i == s.len() ==> first_index_of(s, c) is None,
    decreases i,
{
    if i > 0 {
        lemma_first_index(s.drop_first(), c, i - 1);
    }
}

/// The index of the first `c` in `s` from `from` on, or its length.
fn find_char(s: &str, c: char, from: usize) -> (r: usize)
    requires
        from <= s@.len(),
    ensures
        from <= r <= s@.len(),
        forall|k: int| from <= k < r ==> s@[k] != c,
        r < s@.len() ==> s@[r as int] == c,
{
    let n = s.unicode_len();
    let mut i = from;
    while i < n
        invariant
            n == s@.len(),
            from <= i <= n,
            forall|k: int| from <= k < i ==> s@[k] != c,
        decreases n - i,
    {
        if s.get_char(i) == c {
            return i;
        }
        i = i + 1;
    }
    i
}

/// The session before a PS1 session in the daily cycle: NYPM after NYL, AS
/// after NYPM, LN after AS, NYAM after LN, NYL after NYAM.
pub open spec fn previous_session(ps1: Seq<char>) -> Option<Seq<char>> {
    if ps1 == "NYPM"@ {
        Some("NYL"@)
    } else if ps1 == "AS"@ {
        Some("NYPM"@)
    } else if ps1 == "LN"@ {
        Some("AS"@)
    } else if ps1 == "NYAM"@ {
        Some("LN"@)
    } else if ps1 == "NYL"@ {
        Some("NYAM"@)
    } else {
        None
    }
}

fn previous_session_of(ps1: &str) -> (r: Option<String>)
    ensures
        match r {
            Some(x) => previous_session(ps1@) == Some(x@),
            None => previous_session(ps1@) is None,
        },
{
    if str_is(ps1, "NYPM") {
        Some("NYL".to_owned())
    } else if str_is(ps1, "AS") {
        Some("NYPM".to_owned())
    } else if str_is(ps1, "LN") {
        Some("AS".to_owned())
    } else if str_is(ps1, "NYAM") {
        Some("LN".to_owned())
    } else if str_is(ps1, "NYL") {
        Some("NYAM".to_owned())
    } else {
        None
    }
}

/// The (PS1, PS2) session names of a chain label such as "TCS_LN_NYAM": PS1
/// is the label's second '_'-separated part and PS2 the session before it;
/// "TCS_DEFAULT" stands for the default names.
pub open spec fn chain_names(chain: Seq<char>) -> Result<(Seq<char>, Seq<char>), ()> {
    if chain == "TCS_DEFAULT"@ {
        Ok(("DEFAULT_PS1"@, "DEFAULT_PS2"@))
    } else {
        match second_part(chain) {
            Some(ps1) => match previous_session(ps1) {
                Some(ps2) => Ok((ps1, ps2)),
                None => Err(()),
            },
            None => Err(()),
        }
    }
}

/// The PS1 and PS2 session names of a chain label.
pub fn get_chain_context_names(chain_type: &str) -> (r: Result<(String, Option<String>), ChainError>)
    ensures
        match r {
            Ok((ps1, Some(ps2))) => chain_names(chain_type@) == Ok::<(Seq<char>, Seq<char>), ()>((ps1@, ps2@)),
            Ok((_, None)) => false,
            Err(ChainError::MissingPs1Name) => chain_type@ != "TCS_DEFAULT"@ && second_part(chain_type@) is None,
            Err(ChainError::UnknownPs1Name { ps1_name, chain }) => chain_type@ != "TCS_DEFAULT"@
                && second_part(chain_type@) == Some(ps1_name@) && previous_session(ps1_name@) is None
                && chain@ == chain_type@,
        },
{
    if str_is(chain_type, "TCS_DEFAULT") {
        return Ok(("DEFAULT_PS1".to_owned(), Some("DEFAULT_PS2".to_owned())));
    }
    let n = chain_type.unicode_len();
    let i = find_char(chain_type, '_', 0);
    proof {
        lemma_first_index(chain_type@, '_', i as int);
    }
    if i == n {
        return Err(ChainError::MissingPs1Name);
    }
    let j = find_char(chain_type, '_', i + 1);
    let ps1 = chain_type.substring_char(i + 1, j);
    proof {
        let rest = chain_type@.skip(i + 1);
        assert forall|k: int| 0 <= k < j - (i + 1) implies rest[k] != '_' by {
            assert(rest[k] == chain_type@[k + i + 1]);
        }
        if j < n {
            assert(rest[j - (i + 1)] == chain_type@[j as int]);
        } else {
            assert(rest.len() == j - (i + 1));
        }
        lemma_first_index(rest, '_', j - (i + 1));
        assert(ps1@ =~= if j < n { rest.take(j - (i + 1)) } else { rest });
    }
    match previous_session_of(ps1) {
        Some(ps2) => Ok((ps1.to_owned(), Some(ps2))),
        None => Err(ChainError::UnknownPs1Name { ps1_name: ps1.to_owned(), chain: chain_type.to_owned() }),
    }
}

/// The session names and biases a TCS report queries with.
#[derive(Debug)]
pub struct TcsQueryPlan {
    pub ps1_name: String,
    pub ps2_name: Option<String>,
    pub ps1_bias: String,
    pub ps2_bias: Option<String>,
}

pub open spec fn opt_str_view(s: Option<String>) -> Option<Seq<char>> {
    match s {
        Some(x) => Some(x@),
        None => None,
    }
}

/// Whether `s` starts with "TCS_".
pub open spec fn is_tcs_chain(s: Seq<char>) -> bool {
    s.len() >= 4 && s.take(4) == "TCS_"@
}

fn starts_with_tcs(s: &str) -> (r: bool)
    ensures
        r == is_tcs_chain(s@),
{
    let n = s.unicode_len();
    if n < 4 {
        return false;
    }
    let head = s.substring_char(0, 4);
    str_is(head, "TCS_")
}

/// The names and biases a TCS report queries with. A "TCS_..." chain other
/// than "TCS_DEFAULT" gives the names from its label; otherwise the names of
/// the latest context are used ("N/A" where it has no PS1). A PS1 bias of
/// "AUTO" takes the context's PS1 bias ("Unknown" where it has none); a PS2
/// bias of "AUTO" takes the context's PS2 bias.
pub fn resolve_tcs_query(
    context: &CurrentSessionContext,
    ps1_bias_input: String,
    ps2_bias_input: Option<String>,
    selected_chain: &str,
) -> (r: Result<TcsQueryPlan, ChainError>)
    ensures
        match r {
            Ok(plan) => {
                &&& if is_tcs_chain(selected_chain@) && selected_chain@ != "TCS_DEFAULT"@ {
                    chain_names(selected_chain@) == Ok::<(Seq<char>, Seq<char>), ()>((plan.ps1_name@, plan.ps2_name->0@)) && plan.ps2_name is Some
                } else {
                    &&& plan.ps1_name@ == (match context.ps1_name { Some(n) => n@, None => "N/A"@ })
                    &&& opt_str_view(plan.ps2_name) == opt_str_view(context.ps2_name)
                }
                &&& plan.ps1_bias@ == if ps1_bias_input@ == "AUTO"@ {
                    match context.ps1_bias_7 { Some(b) => b@, None => "Unknown"@ }
                } else {
                    ps1_bias_input@
                }
                &&& opt_str_view(plan.ps2_bias) == match ps2_bias_input {
                    Some(b) => if b@ == "AUTO"@ { opt_str_view(context.ps2_bias_7) } else { Some(b@) },
                    None => None,
                }
            },
            Err(_) => is_tcs_chain(selected_chain@) && selected_chain@ != "TCS_DEFAULT"@ && chain_names(selected_chain@) is Err,
        },
{
    let (ps1_name, ps2_name) = if starts_with_tcs(selected_chain) && !str_is(selected_chain, "TCS_DEFAULT") {
        match get_chain_context_names(selected_chain) {
            Ok(names) => names,
            Err(e) => return Err(e),
        }
    } else {
        let n = match &context.ps1_name {
            Some(n) => n.clone(),
            None => "N/A".to_owned(),
        };
        (n, clone_opt_string(&context.ps2_name))
    };
    let ps1_bias = if str_is(ps1_bias_input.as_str(), "AUTO") {
        match &context.ps1_bias_7 {
            Some(b) => b.clone(),
            None => "Unknown".to_owned(),
        }
    } else {
        ps1_bias_input
    };
    let ps2_bias = match ps2_bias_input {
        Some(b) => if str_is(b.as_str(), "AUTO") { clone_opt_string(&context.ps2_bias_7) } else { Some(b) },
        None => None,
    };
    Ok(TcsQueryPlan { ps1_name, ps2_name, ps1_bias, ps2_bias })
}

} // verus!
