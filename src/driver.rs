use vstd::prelude::*;

verus! {

/// One channel's filter state: the estimated mean and its variance.
#[derive(Debug, Clone, Copy)]
pub struct Belief<T> {
    pub mean: T,
    pub variance: T,
}

/// What a run produced, step by step.
///
/// `estimates[0]` is the initial belief; for each record `i` that was
/// processed, `predictions[i]` is the prediction made from `estimates[i]`,
/// and `estimates[i + 1]` and `gains[i]` are what the update with record `i`
/// made of that prediction.
#[derive(Debug)]
pub struct History<B, G> {
    pub predictions: Vec<B>,
    pub estimates: Vec<B>,
    pub gains: Vec<G>,
}

/// A run that stopped because an update refused a record.
///
/// `history` covers the records before it; `prediction` is the prediction
/// made from the last estimate, and `error` what the update returned for it.
#[derive(Debug)]
pub struct Halted<B, G, E> {
    pub history: History<B, G>,
    pub prediction: B,
    pub error: E,
}

/// `h` is a history that starts at `initial` and whose every step is one
/// call of `predict` followed by one successful call of `update` on the
/// matching record of `records`.
pub open spec fn follows<M, B, G, E, P: Fn(B) -> B, U: Fn(B, M) -> Result<(B, G), E>>(
    records: Seq<M>,
    initial: B,
    predict: P,
    update: U,
    h: History<B, G>,
) -> bool {
    &&& h.gains.len() <= records.len()
    &&& h.predictions.len() == h.gains.len()
    &&& h.estimates.len() == h.gains.len() + 1
    &&& h.estimates[0] == initial
    &&& forall|i: int|
        0 <= i < h.gains.len() ==> {
            &&& call_ensures(predict, (h.estimates[i],), #[trigger] h.predictions[i])
            &&& call_ensures(
                update,
                (h.predictions[i], records[i]),
                Ok::<(B, G), E>((h.estimates[i + 1], h.gains[i])),
            )
        }
}

/// Runs the predict-then-update recursion over `records`, in order, from
/// the belief `initial`.
///
/// Returns the whole history when every update succeeds. When the update of
/// some record fails, stops there and returns the history so far, the
/// prediction that was refused and the update's error.
pub fn run_filter<M: Copy, B: Copy, G, E, P: Fn(B) -> B, U: Fn(B, M) -> Result<(B, G), E>>(
    records: &Vec<M>,
    initial: B,
    predict: P,
    update: U,
) -> (r: Result<History<B, G>, Halted<B, G, E>>)
    requires
        forall|b: B| predict.requires((b,)),
        forall|b: B, m: M| update.requires((b, m)),
    ensures
        r matches Ok(h) ==> {
            &&& follows(records@, initial, predict, update, h)
            &&& h.gains.len() == records.len()
        },
        r matches Err(x) ==> {
            let k = x.history.gains.len() as int;
            &&& follows(records@, initial, predict, update, x.history)
            &&& k < records.len()
            &&& call_ensures(predict, (x.history.estimates[k],), x.prediction)
            &&& call_ensures(update, (x.prediction, records@[k]), Err::<(B, G), E>(x.error))
        },
{
    let mut history = History { predictions: Vec::new(), estimates: Vec::new(), gains: Vec::new() };
    history.estimates.push(initial);
    let mut current: B = initial;
    let mut i: usize = 0;
    while i < records.len()
        invariant
            forall|b: B| predict.requires((b,)),
            forall|b: B, m: M| update.requires((b, m)),
            i <= records.len(),
            i == history.gains.len(),
            current == history.estimates@[i as int],
            follows(records@, initial, predict, update, history),
        decreases records.len() - i,
    {
        let prediction = predict(current);
        match update(prediction, records[i]) {
            Ok((estimate, gain)) => {
                history.predictions.push(prediction);
                history.estimates.push(estimate);
                history.gains.push(gain);
                current = estimate;
            },
            Err(error) => {
                return Err(Halted { history, prediction, error });
            },
        }
        i = i + 1;
    }
    Ok(history)
}

} // verus!
