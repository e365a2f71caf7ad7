use vstd::prelude::*;

verus! {

/// One more than the largest of `ids` (at most `i32::MAX`), and 1 when
/// there is none: the id that a serial key gives next.
pub open spec fn next_id_after(ids: Seq<i32>) -> int
    decreases ids.len(),
{
    if ids.len() == 0 {
        1
    } else {
        let rest = next_id_after(ids.drop_last());
        let here = if ids.last() < i32::MAX {
            ids.last() + 1
        } else {
            i32::MAX as int
        };
        if here > rest {
            here
        } else {
            rest
        }
    }
}

/// A row of a table whose key is a generated serial id.
pub trait SerialRow {
    /// The row's id.
    spec fn serial_id(&self) -> i32;

    /// The row's id.
    fn id(&self) -> (r: i32)
        ensures
            r == self.serial_id(),
    ;
}

impl SerialRow for i32 {
    open spec fn serial_id(&self) -> i32 {
        *self
    }

    fn id(&self) -> (r: i32) {
        *self
    }
}

/// The ids of `rows`, in order.
pub open spec fn ids_of<T: SerialRow>(rows: Seq<T>) -> Seq<i32> {
    rows.map_values(|r: T| r.serial_id())
}

/// The id that the serial key of the table `rows` gives next, taken as one
/// more than the largest id present. This is the library's model of the
/// key: a database sequence may give another id, for instance after
/// deletions or refused inserts.
pub fn next_id<T: SerialRow>(rows: &Vec<T>) -> (r: i32)
    ensures
        r == next_id_after(ids_of(rows@)),
{
    let mut r: i32 = 1;
    let n = rows.len();
    let mut i: usize = 0;
    while i < n
        invariant
            n == rows.len(),
            i <= n,
            r == next_id_after(ids_of(rows@.take(i as int))),
        decreases n - i,
    {
        assert(ids_of(rows@.take(i + 1)).drop_last() =~= ids_of(rows@.take(i as int)));
        let id = rows[i].id();
        assert(ids_of(rows@.take(i + 1)).last() == id);
        let here = if id < i32::MAX {
            id + 1
        } else {
            i32::MAX
        };
        if here > r {
            r = here;
        }
        i = i + 1;
    }
    assert(rows@.take(n as int) =~= rows@);
    r
}

/// The next id is a valid key that no present row below `i32::MAX` holds:
/// it is larger than each of them, and it is the smallest such value: 1, or
/// one more than a present id (`i32::MAX` for an id that is already the
/// largest value).
pub proof fn law_next_id_is_fresh(ids: Seq<i32>)
    ensures
        1 <= next_id_after(ids) <= i32::MAX,
        forall|i: int|
            0 <= i < ids.len() && ids[i] < i32::MAX ==> #[trigger] ids[i] < next_id_after(ids),
        next_id_after(ids) == 1 || exists|k: int|
            0 <= k < ids.len() && (if ids[k] < i32::MAX {
                next_id_after(ids) == #[trigger] ids[k] + 1
            } else {
                next_id_after(ids) == i32::MAX
            }),
    decreases ids.len(),
{
    if ids.len() > 0 {
        let rest = ids.drop_last();
        law_next_id_is_fresh(rest);
        assert forall|i: int| 0 <= i < ids.len() && ids[i] < i32::MAX implies #[trigger] ids[i]
            < next_id_after(ids) by {
            if i < rest.len() {
                assert(rest[i] == ids[i]);
            }
        }
        let last = ids.len() - 1;
        assert(ids[last] == ids.last());
        if next_id_after(ids) != next_id_after(rest) || next_id_after(rest) == 1 {
        } else {
            let k = choose|k: int|
                0 <= k < rest.len() && (if rest[k] < i32::MAX {
                    next_id_after(rest) == #[trigger] rest[k] + 1
                } else {
                    next_id_after(rest) == i32::MAX
                });
            assert(rest[k] == ids[k]);
        }
    }
}

} // verus!
