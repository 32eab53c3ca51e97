//! What the edge records about a call: the data point a metric becomes,
//! and how a rate-limiter binding's reply is read.

use vstd::prelude::*;

use crate::text::{concat, format_i64, i64_decimal, str_eq};

verus! {

/// The value of the first label named `key`, if any.
pub open spec fn first_label(labels: Seq<(Seq<char>, Seq<char>)>, key: Seq<char>) -> Option<Seq<char>>
    decreases labels.len(),
{
    if labels.len() == 0 {
        None
    } else if labels[0].0 == key {
        Some(labels[0].1)
    } else {
        first_label(labels.drop_first(), key)
    }
}

pub open spec fn labels_view(labels: Seq<(String, String)>) -> Seq<(Seq<char>, Seq<char>)> {
    labels.map_values(|l: (String, String)| (l.0@, l.1@))
}

/// The value of the first label named `key`, or `unknown`.
pub open spec fn label_or_unknown(labels: Seq<(Seq<char>, Seq<char>)>, key: Seq<char>) -> Seq<char> {
    match first_label(labels, key) {
        Some(v) => v,
        None => "unknown"@,
    }
}

proof fn lemma_first_label_step(labels: Seq<(Seq<char>, Seq<char>)>, key: Seq<char>, i: int)
    requires
        0 <= i < labels.len(),
        forall|j: int| 0 <= j < i ==> labels[j].0 != key,
    ensures
        first_label(labels, key) == first_label(labels.subrange(i, labels.len() as int), key),
    decreases i,
{
    if i > 0 {
        lemma_first_label_step(labels.drop_first(), key, i - 1);
        assert(labels.drop_first().subrange(i - 1, labels.drop_first().len() as int) =~= labels.subrange(
            i,
            labels.len() as int,
        ));
    } else {
        assert(labels.subrange(0, labels.len() as int) =~= labels);
    }
}

proof fn lemma_first_label_none(labels: Seq<(Seq<char>, Seq<char>)>, key: Seq<char>)
    requires
        forall|j: int| 0 <= j < labels.len() ==> labels[j].0 != key,
    ensures
        first_label(labels, key) is None,
    decreases labels.len(),
{
    if labels.len() > 0 {
        assert forall|j: int| 0 <= j < labels.drop_first().len() implies labels.drop_first()[j].0 != key by {
            assert(labels.drop_first()[j] == labels[j + 1]);
        }
        lemma_first_label_none(labels.drop_first(), key);
    }
}

/// The value of the first label named `key`, or `unknown` where there is
/// none.
pub fn metric_label(labels: &Vec<(String, String)>, key: &str) -> (r: String)
    ensures
        r@ == label_or_unknown(labels_view(labels@), key@),
{
    let ghost lv = labels_view(labels@);
    let mut i: usize = 0;
    while i < labels.len()
        invariant
            i <= labels@.len(),
            lv == labels_view(labels@),
            forall|j: int| 0 <= j < i ==> lv[j].0 != key@,
        decreases labels.len() - i,
    {
        let ghost here = lv[i as int];
        assert(here == (labels@[i as int].0@, labels@[i as int].1@));
        if str_eq(labels[i].0.as_str(), key) {
            proof {
                lemma_first_label_step(lv, key@, i as int);
            }
            return labels[i].1.clone();
        }
        i = i + 1;
    }
    proof {
        lemma_first_label_none(lv, key@);
    }
    String::from_str("unknown")
}

/// A metric as an analytics data point: indexed by the procedure, with
/// the metric's name, the procedure and the status class as blobs. The
/// measured value travels beside it.
pub struct MetricPoint {
    pub index: String,
    pub blobs: Vec<String>,
}

pub fn metric_point(name: &str, labels: &Vec<(String, String)>) -> (p: MetricPoint)
    ensures
        p.index@ == label_or_unknown(labels_view(labels@), "procedure"@),
        p.blobs@.len() == 3,
        p.blobs@[0]@ == name@,
        p.blobs@[1]@ == label_or_unknown(labels_view(labels@), "procedure"@),
        p.blobs@[2]@ == label_or_unknown(labels_view(labels@), "status_class"@),
{
    let procedure = metric_label(labels, "procedure");
    let status_class = metric_label(labels, "status_class");
    let mut blobs: Vec<String> = Vec::new();
    blobs.push(String::from_str(name));
    blobs.push(procedure.clone());
    blobs.push(status_class);
    MetricPoint { index: procedure, blobs }
}

/// How long a rate-limiter binding may take before the call goes on
/// without it.
pub const BINDING_TIMEOUT_MS: i64 = 500;

/// What came of asking the rate-limiter binding.
pub enum LimiterReply {
    /// It answered; `true` where the call is within its limit.
    Answered(bool),
    /// It failed with this message.
    Failed(String),
    /// It did not answer in time.
    TimedOut,
}

#[derive(Debug)]
pub enum LimitOutcome {
    Allowed,
    Exceeded,
    Error(String),
}

pub fn limit_outcome(reply: LimiterReply) -> (r: LimitOutcome)
    ensures
        match reply {
            LimiterReply::Answered(true) => r is Allowed,
            LimiterReply::Answered(false) => r is Exceeded,
            LimiterReply::Failed(m) => r matches LimitOutcome::Error(x) && x@ == m@,
            LimiterReply::TimedOut => r matches LimitOutcome::Error(x) && x@ == "binding timeout after "@
                + i64_decimal(BINDING_TIMEOUT_MS as int) + "ms"@,
        },
{
    match reply {
        LimiterReply::Answered(ok) => if ok {
            LimitOutcome::Allowed
        } else {
            LimitOutcome::Exceeded
        },
        LimiterReply::Failed(m) => LimitOutcome::Error(m),
        LimiterReply::TimedOut => {
            let ms = format_i64(BINDING_TIMEOUT_MS);
            let head = concat("binding timeout after ", ms.as_str());
            LimitOutcome::Error(concat(head.as_str(), "ms"))
        },
    }
}

} // verus!
