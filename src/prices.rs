//! The grid-data service's day-ahead prices and the window they are kept in.
use vstd::prelude::*;
use crate::json::{
    is_integer, names, array_field, i64_field, int_json, lemma_member_at, number_field, read_array_field,
    read_i64_field, read_number_field, Json, JsonNumber,
};

verus! {

/// One price: the start of its hour in milliseconds since the Unix epoch and
/// the price in EUR per MWh.
#[derive(Clone, Copy, Debug, PartialEq, Eq, Structural)]
pub struct SmardDataPoint {
    pub timestamp: i64,
    pub value: JsonNumber,
}

/// A list of prices in the order the service gave them.
#[derive(Debug)]
pub struct SmardApiResponse {
    pub data: Vec<SmardDataPoint>,
}

impl View for SmardApiResponse {
    type V = Seq<SmardDataPoint>;

    open spec fn view(&self) -> Seq<SmardDataPoint> {
        self.data@
    }
}

/// `j` read as one price, or why not.
pub open spec fn point_of(j: Json) -> Result<SmardDataPoint, Seq<char>> {
    match i64_field(j, "timestamp"@) {
        Err(e) => Err(e),
        Ok(timestamp) => match number_field(j, "value"@) {
            Err(e) => Err(e),
            Ok(value) => Ok(SmardDataPoint { timestamp, value }),
        },
    }
}

/// Whether `i` is the first item of `items` that is not a price.
pub open spec fn first_bad_point(items: Seq<Json>, i: int) -> bool {
    &&& 0 <= i < items.len()
    &&& point_of(items[i]) is Err
    &&& forall|k: int| 0 <= k < i ==> (#[trigger] point_of(items[k])) is Ok
}

/// `items` read as prices, or why the first that is not one fails.
pub open spec fn points_in(items: Seq<Json>) -> Result<Seq<SmardDataPoint>, Seq<char>> {
    if exists|i: int| first_bad_point(items, i) {
        let i = choose|i: int| first_bad_point(items, i);
        Err(point_of(items[i])->Err_0)
    } else {
        Ok(Seq::new(items.len(), |i: int| point_of(items[i])->Ok_0))
    }
}

/// `j` read as the service's answer `{"data": [...]}`, or why not. Members
/// that are not named here are ignored.
pub open spec fn price_response_of(j: Json) -> Result<Seq<SmardDataPoint>, Seq<char>> {
    match array_field(j, "data"@) {
        Err(e) => Err(e),
        Ok(items) => points_in(items),
    }
}

/// Whether `j` is exactly the JSON object written for the price `p`:
/// `timestamp` and `value`, in that order.
pub open spec fn point_doc(j: Json, p: SmardDataPoint) -> bool {
    match j {
        Json::Object(m) => {
            &&& m@.len() == 2
            &&& names(m@, 0, "timestamp"@) && is_integer(m@[0].1, p.timestamp as int)
            &&& names(m@, 1, "value"@) && m@[1].1 == Json::Number(p.value)
        },
        _ => false,
    }
}

/// Whether `j` is exactly the JSON document `{"data": [...]}` written for
/// the prices `points`, in their order.
pub open spec fn price_doc(j: Json, points: Seq<SmardDataPoint>) -> bool {
    match j {
        Json::Object(m) => {
            &&& m@.len() == 1
            &&& names(m@, 0, "data"@) && match m@[0].1 {
                Json::Array(items) => {
                    &&& items@.len() == points.len()
                    &&& forall|i: int|
                        0 <= i < points.len() ==> point_doc(#[trigger] items@[i], points[i])
                },
                _ => false,
            }
        },
        _ => false,
    }
}

/// Whether `p` lies in the window from `start_ms` to `end_ms`, both ends
/// included.
pub open spec fn in_window(p: SmardDataPoint, start_ms: i64, end_ms: i64) -> bool {
    start_ms <= p.timestamp <= end_ms
}

/// The prices of `points` that lie in the window, in their order.
pub open spec fn window_of(points: Seq<SmardDataPoint>, start_ms: i64, end_ms: i64) -> Seq<
    SmardDataPoint,
> {
    points.filter(|p: SmardDataPoint| in_window(p, start_ms, end_ms))
}

/// Reads `j` as one price.
fn decode_point(j: &Json) -> (r: Result<SmardDataPoint, String>)
    ensures
        r matches Ok(p) ==> point_of(*j) == Ok::<SmardDataPoint, Seq<char>>(p),
        r matches Err(e) ==> point_of(*j) == Err::<SmardDataPoint, Seq<char>>(e@),
{
    let timestamp = match read_i64_field(j, "timestamp") {
        Ok(t) => t,
        Err(e) => return Err(e),
    };
    match read_number_field(j, "value") {
        Ok(value) => Ok(SmardDataPoint { timestamp, value }),
        Err(e) => Err(e),
    }
}

impl SmardApiResponse {
    /// Reads a decoded JSON document as the service's answer: a `data` array
    /// whose every item has an integer `timestamp` and a numeric `value`. On
    /// failure the message names the first member that is missing or of the
    /// wrong kind.
    pub fn from_json(j: &Json) -> (r: Result<SmardApiResponse, String>)
        ensures
            r matches Ok(p) ==> price_response_of(*j) == Ok::<Seq<SmardDataPoint>, Seq<char>>(
                p@,
            ),
            r matches Err(e) ==> price_response_of(*j) == Err::<Seq<SmardDataPoint>, Seq<char>>(
                e@,
            ),
    {
        let items = match read_array_field(j, "data") {
            Ok(items) => items,
            Err(e) => return Err(e),
        };
        let mut out: Vec<SmardDataPoint> = Vec::new();
        let mut i: usize = 0;
        while i < items.len()
            invariant
                i <= items@.len(),
                out@.len() == i,
                price_response_of(*j) == points_in(items@),
                forall|k: int|
                    0 <= k < i ==> point_of(items@[k]) == Ok::<SmardDataPoint, Seq<char>>(out@[k]),
            decreases items@.len() - i,
        {
            match decode_point(&items[i]) {
                Ok(p) => out.push(p),
                Err(e) => {
                    proof {
                        assert(first_bad_point(items@, i as int));
                        let w = choose|w: int| first_bad_point(items@, w);
                        assert(w == i as int);
                    }
                    return Err(e);
                },
            }
            i = i + 1;
        }
        proof {
            assert forall|w: int| !first_bad_point(items@, w) by {
                if 0 <= w < items@.len() {
                    assert(point_of(items@[w]) is Ok);
                }
            }
        }
        assert(out@ =~= Seq::new(items@.len(), |k: int| point_of(items@[k])->Ok_0));
        Ok(SmardApiResponse { data: out })
    }

    /// The JSON document `{"data": [...]}` of these prices. Reading it back
    /// with `from_json` gives the same prices in the same order.
    pub fn to_json(&self) -> (r: Json)
        ensures
            price_doc(r, self@),
            price_response_of(r) == Ok::<Seq<SmardDataPoint>, Seq<char>>(self@),
    {
        let mut items: Vec<Json> = Vec::new();
        let mut i: usize = 0;
        while i < self.data.len()
            invariant
                i <= self.data@.len(),
                items@.len() == i,
                forall|k: int| 0 <= k < i ==> point_of(items@[k]) == Ok::<SmardDataPoint, Seq<char>>(self.data@[k]),
                forall|k: int| 0 <= k < i ==> point_doc(#[trigger] items@[k], self.data@[k]),
            decreases self.data@.len() - i,
        {
            let p = self.data[i];
            let members = vec![
                ("timestamp".to_owned(), int_json(p.timestamp)),
                ("value".to_owned(), Json::Number(p.value)),
            ];
            proof {
                reveal_strlit("timestamp");
                reveal_strlit("value");
                lemma_member_at(members@, "timestamp"@, 0);
                assert(members@[0].0@.len() != "value"@.len());
                lemma_member_at(members@, "value"@, 1);
            }
            items.push(Json::Object(members));
            i = i + 1;
        }
        assert(self.data@ =~= Seq::new(items@.len(), |k: int| point_of(items@[k])->Ok_0));
        let members = vec![("data".to_owned(), Json::Array(items))];
        proof {
            reveal_strlit("data");
            lemma_member_at(members@, "data"@, 0);
        }
        Json::Object(members)
    }

    /// Keeps the prices whose timestamp lies from `start_ms` to `end_ms`,
    /// both ends included, in their order.
    pub fn within(&self, start_ms: i64, end_ms: i64) -> (r: SmardApiResponse)
        ensures
            r@ == window_of(self@, start_ms, end_ms),
    {
        let mut out: Vec<SmardDataPoint> = Vec::new();
        let mut i: usize = 0;
        while i < self.data.len()
            invariant
                i <= self.data@.len(),
                out@ == window_of(self.data@.subrange(0, i as int), start_ms, end_ms),
            decreases self.data@.len() - i,
        {
            let p = self.data[i];
            proof {
                let pre = self.data@.subrange(0, i as int + 1);
                assert(pre.drop_last() =~= self.data@.subrange(0, i as int));
                assert(pre.last() == p);
                reveal(Seq::filter);
            }
            if start_ms <= p.timestamp && p.timestamp <= end_ms {
                out.push(p);
            }
            i = i + 1;
        }
        assert(self.data@.subrange(0, self.data@.len() as int) =~= self.data@);
        SmardApiResponse { data: out }
    }
}

/// The window keeps a price exactly when its timestamp lies from `start_ms`
/// to `end_ms`: every kept price lies there and comes from the input, every
/// input price that lies there is kept, and the kept prices keep their order.
pub proof fn lemma_window_exact(points: Seq<SmardDataPoint>, start_ms: i64, end_ms: i64)
    ensures
        forall|k: int|
            0 <= k < window_of(points, start_ms, end_ms).len() ==> {
                &&& in_window(#[trigger] window_of(points, start_ms, end_ms)[k], start_ms, end_ms)
                &&& points.contains(window_of(points, start_ms, end_ms)[k])
            },
        forall|k: int|
            0 <= k < points.len() && in_window(#[trigger] points[k], start_ms, end_ms)
                ==> window_of(points, start_ms, end_ms).contains(points[k]),
        window_of(points, start_ms, end_ms).len() <= points.len(),
{
    broadcast use vstd::seq_lib::group_filter_ensures;

    let w = window_of(points, start_ms, end_ms);
    assert forall|k: int| 0 <= k < w.len() implies in_window(#[trigger] w[k], start_ms, end_ms)
        && points.contains(w[k]) by {
        let pred = |p: SmardDataPoint| in_window(p, start_ms, end_ms);
        points.lemma_filter_pred(pred, k);
        assert(w.contains(w[k]));
        points.lemma_filter_contains_rev(pred, w[k]);
    }
    assert forall|k: int|
        0 <= k < points.len() && in_window(#[trigger] points[k], start_ms, end_ms)
            implies w.contains(points[k]) by {
        assert((|p: SmardDataPoint| in_window(p, start_ms, end_ms))(points[k]));
    }
}

/// A window of one instant `t` keeps exactly the prices stamped `t`.
pub proof fn lemma_single_instant_window(p: SmardDataPoint, t: i64)
    ensures
        in_window(p, t, t) <==> p.timestamp == t,
        window_of(seq![p], t, t) == (if p.timestamp == t {
            seq![p]
        } else {
            Seq::<SmardDataPoint>::empty()
        }),
{
    reveal(Seq::filter);
    assert(seq![p].drop_last() =~= Seq::<SmardDataPoint>::empty());
    assert(window_of(Seq::<SmardDataPoint>::empty(), t, t) == Seq::<SmardDataPoint>::empty());
    if p.timestamp == t {
        assert(Seq::<SmardDataPoint>::empty().push(p) =~= seq![p]);
    }
}

} // verus!
