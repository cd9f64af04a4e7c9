use vstd::prelude::*;

verus! {

/// Probabilities are given as fixed-point numbers on one scale shared by the
/// conditional and the base probabilities given together (hundredths,
/// thousandths, millionths, ...): 0.746 is 746 on a scale of thousandths.
/// Every score depends only on the ratio of two such numbers, so any common
/// scale gives the same scores.
///
/// A ratio of two probabilities, rounded to the nearest hundredth (halves
/// rounded up). A positive probability over a zero base is `Infinite`; zero
/// over zero is `Undefined`.
#[derive(Debug, Clone, Copy, PartialEq, Eq, Structural)]
pub enum ScaledScore {
    Finite(u128),
    Infinite,
    Undefined,
}

/// `p_cond / p_base` (both on one fixed-point scale), rounded to hundredths.
pub open spec fn scaled_ratio(p_cond: int, p_base: int) -> ScaledScore {
    if p_base == 0 {
        if p_cond > 0 { ScaledScore::Infinite } else { ScaledScore::Undefined }
    } else {
        ScaledScore::Finite(((200 * p_cond + p_base) / (2 * p_base)) as u128)
    }
}

/// The ratio of two probabilities on one fixed-point scale, rounded to
/// hundredths.
pub fn scale_ratio(p_cond: u64, p_base: u64) -> (r: ScaledScore)
    ensures
        r == scaled_ratio(p_cond as int, p_base as int),
{
    if p_base == 0 {
        if p_cond > 0 { ScaledScore::Infinite } else { ScaledScore::Undefined }
    } else {
        let num: u128 = 200 * (p_cond as u128) + p_base as u128;
        let den: u128 = 2 * (p_base as u128);
        ScaledScore::Finite(num / den)
    }
}

/// The reading of a confidence score: at least 2.25 is an extreme signal, at
/// least 1.75 a high-confidence signal, under 0.75 a contradiction, anything
/// else (an undefined score too) the expected range.
pub open spec fn insight_label_of(s: ScaledScore) -> Seq<char> {
    match s {
        ScaledScore::Finite(v) => if v >= 225 {
            "Extreme Confidence Signal (PCS >= 2.25)"@
        } else if v >= 175 {
            "High-Confidence Signal (PCS >= 1.75)"@
        } else if v < 75 {
            "Contradictory Signal/Failure Risk (PCS < 0.75)"@
        } else {
            "Confirmatory/Expected Range"@
        },
        ScaledScore::Infinite => "Extreme Confidence Signal (PCS >= 2.25)"@,
        ScaledScore::Undefined => "Confirmatory/Expected Range"@,
    }
}

pub fn insight_label(s: ScaledScore) -> (r: String)
    ensures
        r@ == insight_label_of(s),
{
    match s {
        ScaledScore::Finite(v) => if v >= 225 {
            "Extreme Confidence Signal (PCS >= 2.25)".to_owned()
        } else if v >= 175 {
            "High-Confidence Signal (PCS >= 1.75)".to_owned()
        } else if v < 75 {
            "Contradictory Signal/Failure Risk (PCS < 0.75)".to_owned()
        } else {
            "Confirmatory/Expected Range".to_owned()
        },
        ScaledScore::Infinite => "Extreme Confidence Signal (PCS >= 2.25)".to_owned(),
        ScaledScore::Undefined => "Confirmatory/Expected Range".to_owned(),
    }
}

/// The probability of a day outcome after (PD2, PD1, PD1 weekday), as a
/// fixed-point number on the scale of its base rates.
#[derive(Debug)]
pub struct DayOutcome3rdOrder {
    pub asset_id: String,
    pub pd2_bias: String,
    pub pd1_bias: String,
    pub pd1_dow: String,
    pub c_day_bias: String,
    pub reliable_total_attempts: u64,
    pub reliable_success_count: u64,
    pub p_day_bias_conditional: u64,
}

/// The base probability of a day type, as a fixed-point number.
#[derive(Debug)]
pub struct DayTypeBaseRate {
    pub asset_id: String,
    pub daily_bias: String,
    pub p_day_type_base: u64,
}

/// The Predictive Daily Confidence Score of one 3rd-order pattern and outcome.
#[derive(Debug)]
pub struct DailyConfidenceScore {
    pub asset_id: String,
    pub pd2_outcome: String,
    pub pd1_outcome: String,
    pub pd1_dow: String,
    pub day0_outcome: String,
    pub p_day_outcome_conditional: u64,
    pub p_day_type_base: u64,
    pub pdcs_score: ScaledScore,
    pub insight_label: String,
}

/// The index of the last base rate of `asset` and `bias`, if any (a later
/// base rate of the same key replaces an earlier one).
pub open spec fn last_base_rate(bases: Seq<DayTypeBaseRate>, asset: Seq<char>, bias: Seq<char>) -> Option<int>
    decreases bases.len(),
{
    if bases.len() == 0 {
        None
    } else if bases.last().asset_id@ == asset && bases.last().daily_bias@ == bias {
        Some(bases.len() - 1)
    } else {
        last_base_rate(bases.drop_last(), asset, bias)
    }
}

proof fn lemma_last_base_rate(bases: Seq<DayTypeBaseRate>, asset: Seq<char>, bias: Seq<char>)
    ensures
        last_base_rate(bases, asset, bias) matches Some(k) ==> 0 <= k < bases.len()
            && bases[k].asset_id@ == asset && bases[k].daily_bias@ == bias,
    decreases bases.len(),
{
    if bases.len() > 0 {
        lemma_last_base_rate(bases.drop_last(), asset, bias);
    }
}

fn find_base_rate(bases: &Vec<DayTypeBaseRate>, asset: &String, bias: &String) -> (r: Option<usize>)
    ensures
        match r {
            Some(k) => k < bases.len() && last_base_rate(bases@, asset@, bias@) == Some(k as int),
            None => last_base_rate(bases@, asset@, bias@) is None,
        },
{
    let mut k = bases.len();
    assert(bases@.take(k as int) =~= bases@);
    while k > 0
        invariant
            k <= bases.len(),
            last_base_rate(bases@, asset@, bias@) == last_base_rate(bases@.take(k as int), asset@, bias@),
        decreases k,
    {
        let ghost pre = bases@.take(k as int);
        assert(pre.drop_last() =~= bases@.take(k - 1));
        assert(pre.last() == bases@[k - 1]);
        if bases[k - 1].asset_id == *asset && bases[k - 1].daily_bias == *bias {
            return Some(k - 1);
        }
        k = k - 1;
    }
    assert(bases@.take(0).len() == 0);
    None
}

/// Whether `s` is the confidence score of `p` against base rate `b`.
pub open spec fn is_pdcs(s: DailyConfidenceScore, p: DayOutcome3rdOrder, b: DayTypeBaseRate) -> bool {
    let score = scaled_ratio(p.p_day_bias_conditional as int, b.p_day_type_base as int);
    &&& s.asset_id == p.asset_id
    &&& s.pd2_outcome == p.pd2_bias
    &&& s.pd1_outcome == p.pd1_bias
    &&& s.pd1_dow == p.pd1_dow
    &&& s.day0_outcome == p.c_day_bias
    &&& s.p_day_outcome_conditional == p.p_day_bias_conditional
    &&& s.p_day_type_base == b.p_day_type_base
    &&& s.pdcs_score == score
    &&& s.insight_label@ == insight_label_of(score)
}

/// `r` holds, in order, the confidence score of every conditional rate that
/// has a base rate for its asset and outcome.
pub open spec fn pdcs_scores_of(r: Seq<DailyConfidenceScore>, conds: Seq<DayOutcome3rdOrder>, bases: Seq<DayTypeBaseRate>) -> bool
    decreases conds.len(),
{
    if conds.len() == 0 {
        r.len() == 0
    } else {
        let p = conds.last();
        match last_base_rate(bases, p.asset_id@, p.c_day_bias@) {
            Some(k) => r.len() >= 1 && pdcs_scores_of(r.drop_last(), conds.drop_last(), bases) && is_pdcs(r.last(), p, bases[k]),
            None => pdcs_scores_of(r, conds.drop_last(), bases),
        }
    }
}

/// Scales each 3rd-order conditional probability by the base rate of its
/// outcome into the Predictive Daily Confidence Score, with its reading;
/// rates without a base rate are left out.
pub fn calculate_pdcs_scores(conditional_rates: Vec<DayOutcome3rdOrder>, base_rates: Vec<DayTypeBaseRate>) -> (r: Vec<DailyConfidenceScore>)
    ensures
        pdcs_scores_of(r@, conditional_rates@, base_rates@),
{
    let ghost orig = conditional_rates@;
    let mut conds = conditional_rates;
    let mut out: Vec<DailyConfidenceScore> = Vec::new();
    let ghost mut k: int = 0;
    while conds.len() > 0
        invariant
            0 <= k <= orig.len(),
            conds@ == orig.skip(k),
            pdcs_scores_of(out@, orig.take(k), base_rates@),
        decreases conds.len(),
    {
        proof {
            assert(orig.skip(k)[0] == orig[k]);
        }
        let p = conds.remove(0);
        proof {
            assert(orig.take(k + 1).drop_last() =~= orig.take(k));
            assert(orig.take(k + 1).last() == orig[k]);
        }
        let ghost out0 = out@;
        if let Some(b) = find_base_rate(&base_rates, &p.asset_id, &p.c_day_bias) {
            let p_day_type_base = base_rates[b].p_day_type_base;
            let score = scale_ratio(p.p_day_bias_conditional, p_day_type_base);
            let label = insight_label(score);
            out.push(DailyConfidenceScore {
                asset_id: p.asset_id,
                pd2_outcome: p.pd2_bias,
                pd1_outcome: p.pd1_bias,
                pd1_dow: p.pd1_dow,
                day0_outcome: p.c_day_bias,
                p_day_outcome_conditional: p.p_day_bias_conditional,
                p_day_type_base,
                pdcs_score: score,
                insight_label: label,
            });
            assert(out@.drop_last() =~= out0);
        }
        proof {
            assert(conds@ =~= orig.skip(k + 1));
            k = k + 1;
        }
    }
    assert(orig.take(k) =~= orig);
    out
}

/// The probability of a day type after a session pattern (PS2 name and
/// bias, PS1 name and bias), as a fixed-point number on the scale of its
/// base rates.
#[derive(Debug)]
pub struct DayType2ndOrder {
    pub asset_id: String,
    pub ps2_name: String,
    pub ps2_bias: String,
    pub ps1_name: String,
    pub ps1_bias: String,
    pub day_type: String,
    pub p_day_type_conditional: u64,
}

/// The strongest Predictive Confidence Score of one session pattern and the
/// day type that reached it.
#[derive(Debug)]
pub struct PcsScore2ndOrder {
    pub asset_id: String,
    pub ps2_name: String,
    pub ps2_bias: String,
    pub ps1_name: String,
    pub ps1_bias: String,
    pub pcs_day_type: String,
    pub pcs_score: ScaledScore,
}

/// The strongest score of a pattern so far: the ratio `num / den`, or
/// infinity, and the day type that reached it.
pub struct PcsBest {
    pub num: int,
    pub den: int,
    pub infinite: bool,
    pub day_type: Seq<char>,
}

/// Whether the ratio `p_cond / p_base` is strictly above `b` (a zero over a
/// zero is above nothing; a positive over a zero is infinite).
pub open spec fn beats(p_cond: int, p_base: int, b: PcsBest) -> bool {
    if p_base == 0 {
        p_cond > 0 && !b.infinite
    } else {
        !b.infinite && p_cond * b.den > b.num * p_base
    }
}

pub open spec fn same_pattern(c: DayType2ndOrder, asset: Seq<char>, ps2n: Seq<char>, ps2b: Seq<char>, ps1n: Seq<char>, ps1b: Seq<char>) -> bool {
    c.asset_id@ == asset && c.ps2_name@ == ps2n && c.ps2_bias@ == ps2b && c.ps1_name@ == ps1n && c.ps1_bias@ == ps1b
}

/// Whether a conditional rate counts: it has a base rate for its asset and day type.
pub open spec fn has_base(c: DayType2ndOrder, bases: Seq<DayTypeBaseRate>) -> bool {
    last_base_rate(bases, c.asset_id@, c.day_type@) is Some
}

/// The strongest score of a pattern over the conditional rates, starting from
/// zero with no day type; a later rate replaces the best only when strictly
/// above it.
pub open spec fn pcs_best(
    conds: Seq<DayType2ndOrder>,
    bases: Seq<DayTypeBaseRate>,
    asset: Seq<char>,
    ps2n: Seq<char>,
    ps2b: Seq<char>,
    ps1n: Seq<char>,
    ps1b: Seq<char>,
) -> PcsBest
    decreases conds.len(),
{
    if conds.len() == 0 {
        PcsBest { num: 0, den: 1, infinite: false, day_type: seq![] }
    } else {
        let b = pcs_best(conds.drop_last(), bases, asset, ps2n, ps2b, ps1n, ps1b);
        let c = conds.last();
        if same_pattern(c, asset, ps2n, ps2b, ps1n, ps1b) && has_base(c, bases) {
            let pb = bases[last_base_rate(bases, c.asset_id@, c.day_type@)->0].p_day_type_base as int;
            let pc = c.p_day_type_conditional as int;
            if beats(pc, pb, b) {
                PcsBest { num: pc, den: pb, infinite: pb == 0, day_type: c.day_type@ }
            } else {
                b
            }
        } else {
            b
        }
    }
}

/// The best score rounded to hundredths.
pub open spec fn pcs_final(b: PcsBest) -> ScaledScore {
    if b.infinite {
        ScaledScore::Infinite
    } else {
        ScaledScore::Finite(((200 * b.num + b.den) / (2 * b.den)) as u128)
    }
}

pub open spec fn row_pattern_is(r: PcsScore2ndOrder, asset: Seq<char>, ps2n: Seq<char>, ps2b: Seq<char>, ps1n: Seq<char>, ps1b: Seq<char>) -> bool {
    r.asset_id@ == asset && r.ps2_name@ == ps2n && r.ps2_bias@ == ps2b && r.ps1_name@ == ps1n && r.ps1_bias@ == ps1b
}

/// The PCS table: one row per distinct session pattern of the conditional
/// rates that have a base rate, with its strongest score and day type.
pub open spec fn is_pcs_table(r: Seq<PcsScore2ndOrder>, conds: Seq<DayType2ndOrder>, bases: Seq<DayTypeBaseRate>) -> bool {
    &&& forall|k: int|
        #![trigger r[k]]
        0 <= k < r.len() ==> {
            let b = pcs_best(conds, bases, r[k].asset_id@, r[k].ps2_name@, r[k].ps2_bias@, r[k].ps1_name@, r[k].ps1_bias@);
            &&& r[k].pcs_score == pcs_final(b)
            &&& r[k].pcs_day_type@ == b.day_type
            &&& exists|j: int| 0 <= j < conds.len() && #[trigger] has_base(conds[j], bases)
                && same_pattern(conds[j], r[k].asset_id@, r[k].ps2_name@, r[k].ps2_bias@, r[k].ps1_name@, r[k].ps1_bias@)
        }
    &&& forall|j: int|
        0 <= j < conds.len() && #[trigger] has_base(conds[j], bases) ==> exists|k: int|
            0 <= k < r.len() && #[trigger] row_pattern_is(r[k], conds[j].asset_id@, conds[j].ps2_name@, conds[j].ps2_bias@, conds[j].ps1_name@, conds[j].ps1_bias@)
    &&& forall|k1: int, k2: int|
        0 <= k1 < r.len() && 0 <= k2 < r.len() && k1 != k2 ==> !row_pattern_is(
            #[trigger] r[k1],
            (#[trigger] r[k2]).asset_id@,
            r[k2].ps2_name@,
            r[k2].ps2_bias@,
            r[k2].ps1_name@,
            r[k2].ps1_bias@,
        )
}

fn find_pcs_row(rows: &Vec<PcsScore2ndOrder>, c: &DayType2ndOrder) -> (r: bool)
    ensures
        r == exists|k: int| 0 <= k < rows.len() && #[trigger] row_pattern_is(rows@[k], c.asset_id@, c.ps2_name@, c.ps2_bias@, c.ps1_name@, c.ps1_bias@),
{
    let mut k: usize = 0;
    while k < rows.len()
        invariant
            k <= rows.len(),
            forall|m: int| 0 <= m < k ==> !row_pattern_is(#[trigger] rows@[m], c.asset_id@, c.ps2_name@, c.ps2_bias@, c.ps1_name@, c.ps1_bias@),
        decreases rows.len() - k,
    {
        let x = &rows[k];
        if x.asset_id == c.asset_id && x.ps2_name == c.ps2_name && x.ps2_bias == c.ps2_bias && x.ps1_name == c.ps1_name
            && x.ps1_bias == c.ps1_bias {
            assert(row_pattern_is(rows@[k as int], c.asset_id@, c.ps2_name@, c.ps2_bias@, c.ps1_name@, c.ps1_bias@));
            return true;
        }
        k = k + 1;
    }
    false
}

proof fn lemma_u64_product(a: u64, b: u64)
    ensures
        (a as int) * (b as int) <= u128::MAX,
{
    assert((a as int) * (b as int) <= (u64::MAX as int) * (u64::MAX as int)) by (nonlinear_arith)
        requires
            0 <= a <= u64::MAX,
            0 <= b <= u64::MAX,
    ;
}

/// The strongest score of the pattern of `c` over all conditional rates.
fn best_for(conds: &Vec<DayType2ndOrder>, bases: &Vec<DayTypeBaseRate>, key: &DayType2ndOrder) -> (r: (u64, u64, bool, String))
    ensures
        ({
            let b = pcs_best(conds@, bases@, key.asset_id@, key.ps2_name@, key.ps2_bias@, key.ps1_name@, key.ps1_bias@);
            &&& r.0 as int == b.num
            &&& r.1 as int == b.den
            &&& r.2 == b.infinite
            &&& r.3@ == b.day_type
            &&& (!b.infinite ==> b.den > 0)
        }),
{
    let mut num: u64 = 0;
    let mut den: u64 = 1;
    let mut inf = false;
    let mut day_type = String::new();
    let mut j: usize = 0;
    while j < conds.len()
        invariant
            j <= conds.len(),
            ({
                let b = pcs_best(conds@.take(j as int), bases@, key.asset_id@, key.ps2_name@, key.ps2_bias@, key.ps1_name@, key.ps1_bias@);
                &&& num as int == b.num
                &&& den as int == b.den
                &&& inf == b.infinite
                &&& day_type@ == b.day_type
                &&& (!b.infinite ==> b.den > 0)
            }),
        decreases conds.len() - j,
    {
        let ghost pre = conds@.take(j + 1);
        assert(pre.drop_last() =~= conds@.take(j as int));
        assert(pre.last() == conds@[j as int]);
        let c = &conds[j];
        if c.asset_id == key.asset_id && c.ps2_name == key.ps2_name && c.ps2_bias == key.ps2_bias && c.ps1_name == key.ps1_name
            && c.ps1_bias == key.ps1_bias {
            if let Some(bi) = find_base_rate(bases, &c.asset_id, &c.day_type) {
                let pb = bases[bi].p_day_type_base;
                let pc = c.p_day_type_conditional;
                proof {
                    lemma_u64_product(pc, den);
                    lemma_u64_product(num, pb);
                }
                let better = if pb == 0 {
                    pc > 0 && !inf
                } else {
                    !inf && (pc as u128) * (den as u128) > (num as u128) * (pb as u128)
                };
                if better {
                    num = pc;
                    den = pb;
                    inf = pb == 0;
                    day_type = c.day_type.clone();
                }
            }
        }
        j = j + 1;
    }
    assert(conds@.take(conds.len() as int) =~= conds@);
    (num, den, inf, day_type)
}

/// The strongest Predictive Confidence Score of every session pattern: the
/// highest ratio of a day type's conditional probability to its base rate,
/// with the day type that reached it, rounded to hundredths.
pub fn calculate_pcs_scores(conditional_rates: Vec<DayType2ndOrder>, base_rates: Vec<DayTypeBaseRate>) -> (r: Vec<PcsScore2ndOrder>)
    ensures
        is_pcs_table(r@, conditional_rates@, base_rates@),
{
    let ghost cv = conditional_rates@;
    let ghost bv = base_rates@;
    let mut rows: Vec<PcsScore2ndOrder> = Vec::new();
    let mut j: usize = 0;
    while j < conditional_rates.len()
        invariant
            j <= conditional_rates.len(),
            cv == conditional_rates@,
            bv == base_rates@,
            forall|k: int|
                #![trigger rows@[k]]
                0 <= k < rows@.len() ==> {
                    let b = pcs_best(cv, bv, rows@[k].asset_id@, rows@[k].ps2_name@, rows@[k].ps2_bias@, rows@[k].ps1_name@, rows@[k].ps1_bias@);
                    &&& rows@[k].pcs_score == pcs_final(b)
                    &&& rows@[k].pcs_day_type@ == b.day_type
                    &&& exists|jj: int| 0 <= jj < cv.len() && #[trigger] has_base(cv[jj], bv)
                        && same_pattern(cv[jj], rows@[k].asset_id@, rows@[k].ps2_name@, rows@[k].ps2_bias@, rows@[k].ps1_name@, rows@[k].ps1_bias@)
                },
            forall|jj: int|
                0 <= jj < j && #[trigger] has_base(cv[jj], bv) ==> exists|k: int|
                    0 <= k < rows@.len() && #[trigger] row_pattern_is(rows@[k], cv[jj].asset_id@, cv[jj].ps2_name@, cv[jj].ps2_bias@, cv[jj].ps1_name@, cv[jj].ps1_bias@),
            forall|k1: int, k2: int|
                0 <= k1 < rows@.len() && 0 <= k2 < rows@.len() && k1 != k2 ==> !row_pattern_is(
                    #[trigger] rows@[k1],
                    (#[trigger] rows@[k2]).asset_id@,
                    rows@[k2].ps2_name@,
                    rows@[k2].ps2_bias@,
                    rows@[k2].ps1_name@,
                    rows@[k2].ps1_bias@,
                ),
        decreases conditional_rates.len() - j,
    {
        let c = &conditional_rates[j];
        let ghost r0 = rows@;
        let found = find_base_rate(&base_rates, &c.asset_id, &c.day_type);
        let mut added = false;
        if found.is_some() && !find_pcs_row(&rows, c) {
            let (num, den, inf, day_type) = best_for(&conditional_rates, &base_rates, c);
            let score = if inf {
                ScaledScore::Infinite
            } else {
                ScaledScore::Finite((200 * (num as u128) + den as u128) / (2 * (den as u128)))
            };
            rows.push(PcsScore2ndOrder {
                asset_id: c.asset_id.clone(),
                ps2_name: c.ps2_name.clone(),
                ps2_bias: c.ps2_bias.clone(),
                ps1_name: c.ps1_name.clone(),
                ps1_bias: c.ps1_bias.clone(),
                pcs_day_type: day_type,
                pcs_score: score,
            });
            added = true;
            proof {
                let n = r0.len() as int;
                assert(has_base(cv[j as int], bv));
                assert(same_pattern(cv[j as int], rows@[n].asset_id@, rows@[n].ps2_name@, rows@[n].ps2_bias@, rows@[n].ps1_name@, rows@[n].ps1_bias@));
            }
        }
        proof {
            let n = r0.len() as int;
            assert forall|k1: int, k2: int|
                0 <= k1 < rows@.len() && 0 <= k2 < rows@.len() && k1 != k2 implies !row_pattern_is(
                    #[trigger] rows@[k1],
                    (#[trigger] rows@[k2]).asset_id@,
                    rows@[k2].ps2_name@,
                    rows@[k2].ps2_bias@,
                    rows@[k2].ps1_name@,
                    rows@[k2].ps1_bias@,
                ) by {
                if k1 < n && k2 < n {
                    assert(rows@[k1] == r0[k1]);
                    assert(rows@[k2] == r0[k2]);
                } else if k1 == n {
                    assert(rows@[k2] == r0[k2]);
                    assert(!row_pattern_is(r0[k2], c.asset_id@, c.ps2_name@, c.ps2_bias@, c.ps1_name@, c.ps1_bias@));
                } else {
                    assert(rows@[k1] == r0[k1]);
                    assert(!row_pattern_is(r0[k1], c.asset_id@, c.ps2_name@, c.ps2_bias@, c.ps1_name@, c.ps1_bias@));
                }
            }
            assert forall|jj: int|
                0 <= jj < j + 1 && #[trigger] has_base(cv[jj], bv) implies exists|k: int|
                    0 <= k < rows@.len() && #[trigger] row_pattern_is(rows@[k], cv[jj].asset_id@, cv[jj].ps2_name@, cv[jj].ps2_bias@, cv[jj].ps1_name@, cv[jj].ps1_bias@) by {
                if jj < j {
                    let k = choose|k: int| 0 <= k < r0.len() && #[trigger] row_pattern_is(r0[k], cv[jj].asset_id@, cv[jj].ps2_name@, cv[jj].ps2_bias@, cv[jj].ps1_name@, cv[jj].ps1_bias@);
                    assert(rows@[k] == r0[k]);
                } else if !added {
                    let k = choose|k: int| 0 <= k < r0.len() && #[trigger] row_pattern_is(r0[k], cv[jj].asset_id@, cv[jj].ps2_name@, cv[jj].ps2_bias@, cv[jj].ps1_name@, cv[jj].ps1_bias@);
                    assert(rows@[k] == r0[k]);
                } else {
                    assert(row_pattern_is(rows@[n], cv[jj].asset_id@, cv[jj].ps2_name@, cv[jj].ps2_bias@, cv[jj].ps1_name@, cv[jj].ps1_bias@));
                }
            }
            assert forall|k: int| #![trigger rows@[k]] 0 <= k < rows@.len() implies exists|jj: int| 0 <= jj < cv.len() && #[trigger] has_base(cv[jj], bv)
                && same_pattern(cv[jj], rows@[k].asset_id@, rows@[k].ps2_name@, rows@[k].ps2_bias@, rows@[k].ps1_name@, rows@[k].ps1_bias@) by {
                if k < n {
                    assert(rows@[k] == r0[k]);
                } else {
                    assert(has_base(cv[j as int], bv));
                }
            }
        }
        j = j + 1;
    }
    rows
}

/// The probability of a current-session outcome after a session pattern, as
/// a fixed-point number on the scale of its base rates.
#[derive(Debug)]
pub struct Transition2ndOrder {
    pub asset_id: String,
    pub ps2_bias: String,
    pub ps1_bias: String,
    pub cs_bias: String,
    pub ps2_name: String,
    pub ps1_name: String,
    pub cs_name: String,
    pub reliable_total_attempts: u64,
    pub reliable_success_count: u64,
    pub p_transition_conditional: u64,
}

/// The base probability of a current-session bias, as a fixed-point number.
#[derive(Debug)]
pub struct CsBaseRate {
    pub asset_id: String,
    pub cs_bias: String,
    pub p_base: u64,
}

/// The Transition Confidence Score of one transition.
#[derive(Debug)]
pub struct Tcs2ndOrder {
    pub asset_id: String,
    pub ps2_name: String,
    pub ps2_bias: String,
    pub ps1_name: String,
    pub ps1_bias: String,
    pub cs_name: String,
    pub cs_bias: String,
    pub p_transition_conditional: u64,
    pub p_cs_base: u64,
    pub tcs_score: ScaledScore,
}

pub open spec fn last_cs_base(bases: Seq<CsBaseRate>, asset: Seq<char>, bias: Seq<char>) -> Option<int>
    decreases bases.len(),
{
    if bases.len() == 0 {
        None
    } else if bases.last().asset_id@ == asset && bases.last().cs_bias@ == bias {
        Some(bases.len() - 1)
    } else {
        last_cs_base(bases.drop_last(), asset, bias)
    }
}

fn find_cs_base(bases: &Vec<CsBaseRate>, asset: &String, bias: &String) -> (r: Option<usize>)
    ensures
        match r {
            Some(k) => k < bases.len() && last_cs_base(bases@, asset@, bias@) == Some(k as int),
            None => last_cs_base(bases@, asset@, bias@) is None,
        },
{
    let mut k = bases.len();
    assert(bases@.take(k as int) =~= bases@);
    while k > 0
        invariant
            k <= bases.len(),
            last_cs_base(bases@, asset@, bias@) == last_cs_base(bases@.take(k as int), asset@, bias@),
        decreases k,
    {
        let ghost pre = bases@.take(k as int);
        assert(pre.drop_last() =~= bases@.take(k - 1));
        assert(pre.last() == bases@[k - 1]);
        if bases[k - 1].asset_id == *asset && bases[k - 1].cs_bias == *bias {
            return Some(k - 1);
        }
        k = k - 1;
    }
    assert(bases@.take(0).len() == 0);
    None
}

pub open spec fn is_tcs(s: Tcs2ndOrder, t: Transition2ndOrder, b: CsBaseRate) -> bool {
    &&& s.asset_id == t.asset_id
    &&& s.ps2_name == t.ps2_name
    &&& s.ps2_bias == t.ps2_bias
    &&& s.ps1_name == t.ps1_name
    &&& s.ps1_bias == t.ps1_bias
    &&& s.cs_name == t.cs_name
    &&& s.cs_bias == t.cs_bias
    &&& s.p_transition_conditional == t.p_transition_conditional
    &&& s.p_cs_base == b.p_base
    &&& s.tcs_score == scaled_ratio(t.p_transition_conditional as int, b.p_base as int)
}

pub open spec fn tcs_scores_of(r: Seq<Tcs2ndOrder>, conds: Seq<Transition2ndOrder>, bases: Seq<CsBaseRate>) -> bool
    decreases conds.len(),
{
    if conds.len() == 0 {
        r.len() == 0
    } else {
        let t = conds.last();
        match last_cs_base(bases, t.asset_id@, t.cs_bias@) {
            Some(k) => r.len() >= 1 && tcs_scores_of(r.drop_last(), conds.drop_last(), bases) && is_tcs(r.last(), t, bases[k]),
            None => tcs_scores_of(r, conds.drop_last(), bases),
        }
    }
}

/// Scales each 2nd-order transition probability by the base rate of its CS
/// bias into the Transition Confidence Score; transitions without a base
/// rate are left out.
pub fn calculate_tcs_scores(conditional_rates: Vec<Transition2ndOrder>, base_rates: Vec<CsBaseRate>) -> (r: Vec<Tcs2ndOrder>)
    ensures
        tcs_scores_of(r@, conditional_rates@, base_rates@),
{
    let ghost orig = conditional_rates@;
    let mut conds = conditional_rates;
    let mut out: Vec<Tcs2ndOrder> = Vec::new();
    let ghost mut k: int = 0;
    while conds.len() > 0
        invariant
            0 <= k <= orig.len(),
            conds@ == orig.skip(k),
            tcs_scores_of(out@, orig.take(k), base_rates@),
        decreases conds.len(),
    {
        proof {
            assert(orig.skip(k)[0] == orig[k]);
        }
        let t = conds.remove(0);
        proof {
            assert(orig.take(k + 1).drop_last() =~= orig.take(k));
            assert(orig.take(k + 1).last() == orig[k]);
        }
        let ghost out0 = out@;
        if let Some(b) = find_cs_base(&base_rates, &t.asset_id, &t.cs_bias) {
            let p_cs_base = base_rates[b].p_base;
            let score = scale_ratio(t.p_transition_conditional, p_cs_base);
            out.push(Tcs2ndOrder {
                asset_id: t.asset_id,
                ps2_name: t.ps2_name,
                ps2_bias: t.ps2_bias,
                ps1_name: t.ps1_name,
                ps1_bias: t.ps1_bias,
                cs_name: t.cs_name,
                cs_bias: t.cs_bias,
                p_transition_conditional: t.p_transition_conditional,
                p_cs_base,
                tcs_score: score,
            });
            assert(out@.drop_last() =~= out0);
        }
        proof {
            assert(conds@ =~= orig.skip(k + 1));
            k = k + 1;
        }
    }
    assert(orig.take(k) =~= orig);
    out
}

} // verus!
