use vstd::prelude::*;
use vstd::string::StringExecFns;

verus! {

/// One endpoint that staged files are posted to.
#[derive(Clone, Debug)]
pub struct ApiConfig {
    /// The path appended to the base address.
    pub endpoint: String,
    /// The folder whose files are posted.
    pub carpeta_archivos: String,
    /// The group the endpoint runs in; groups run in ascending order, the
    /// endpoints of one group concurrently. Absent means 1.
    pub concurrencia: Option<u8>,
    /// Whether the body is gzip-compressed. Absent means no.
    pub comprimir: Option<bool>,
}

/// The group of an endpoint.
pub open spec fn level_of(a: ApiConfig) -> u8 {
    match a.concurrencia {
        Some(n) => n,
        None => 1,
    }
}

/// Whether an endpoint's body is compressed.
pub open spec fn compress_of(a: ApiConfig) -> bool {
    match a.comprimir {
        Some(b) => b,
        None => false,
    }
}

impl ApiConfig {
    /// The group this endpoint runs in.
    pub fn level(&self) -> (r: u8)
        ensures
            r == level_of(*self),
    {
        match self.concurrencia {
            Some(n) => n,
            None => 1,
        }
    }

    /// Whether this endpoint's body is compressed.
    pub fn compress(&self) -> (r: bool)
        ensures
            r == compress_of(*self),
    {
        match self.comprimir {
            Some(b) => b,
            None => false,
        }
    }
}

/// The address of `endpoint` under `base`: the two joined as they are.
pub fn join_url(base: &str, endpoint: &str) -> (r: String)
    ensures
        r@ == base@ + endpoint@,
{
    let mut r = String::new();
    r.append(base);
    r.append(endpoint);
    r
}

/// Some group numbered `lv` holds index `i`.
pub open spec fn placed(groups: Seq<(u8, Vec<usize>)>, i: int, lv: u8) -> bool {
    exists|g: int, m: int|
        0 <= g < groups.len() && 0 <= m < groups[g].1@.len() && groups[g].0 == lv
            && (#[trigger] groups[g].1@[m]) == i
}

/// The indices of the endpoints in group `lv`, ascending.
fn indices_at_level(apis: &Vec<ApiConfig>, lv: u8) -> (r: Vec<usize>)
    ensures
        forall|m: int| 0 <= m < r@.len() ==> r@[m] < apis@.len() && level_of(apis@[r@[m] as int]) == lv,
        forall|m1: int, m2: int| 0 <= m1 < m2 < r@.len() ==> r@[m1] < r@[m2],
        forall|i: int|
            0 <= i < apis@.len() && level_of(#[trigger] apis@[i]) == lv ==> exists|m: int|
                0 <= m < r@.len() && r@[m] == i,
{
    let mut r: Vec<usize> = Vec::new();
    let mut i: usize = 0;
    while i < apis.len()
        invariant
            i <= apis@.len(),
            forall|m: int| 0 <= m < r@.len() ==> r@[m] < i && level_of(apis@[r@[m] as int]) == lv,
            forall|m1: int, m2: int| 0 <= m1 < m2 < r@.len() ==> r@[m1] < r@[m2],
            forall|j: int|
                0 <= j < i && level_of(#[trigger] apis@[j]) == lv ==> exists|m: int|
                    0 <= m < r@.len() && r@[m] == j,
        decreases apis@.len() - i,
    {
        if apis[i].level() == lv {
            let ghost before = r@;
            r.push(i);
            assert forall|j: int|
                0 <= j < i + 1 && level_of(#[trigger] apis@[j]) == lv implies exists|m: int|
                    0 <= m < r@.len() && r@[m] == j by {
                if j < i {
                    let m = choose|m: int| 0 <= m < before.len() && before[m] == j;
                    assert(r@[m] == before[m]);
                } else {
                    assert(r@[r@.len() - 1] == j);
                }
            }
        }
        i = i + 1;
    }
    r
}

/// The endpoints grouped by their group number: groups in ascending order
/// of number, none empty, each holding its endpoints' indices in ascending
/// order, every endpoint in the group of its number.
pub fn group_by_level(apis: &Vec<ApiConfig>) -> (r: Vec<(u8, Vec<usize>)>)
    ensures
        forall|g1: int, g2: int| 0 <= g1 < g2 < r@.len() ==> r@[g1].0 < r@[g2].0,
        forall|g: int| 0 <= g < r@.len() ==> (#[trigger] r@[g]).1@.len() > 0,
        forall|g: int, m: int|
            0 <= g < r@.len() && 0 <= m < r@[g].1@.len() ==> (#[trigger] r@[g].1@[m])
                < apis@.len() && level_of(apis@[r@[g].1@[m] as int]) == r@[g].0,
        forall|g: int, m1: int, m2: int|
            0 <= g < r@.len() && 0 <= m1 < m2 < r@[g].1@.len() ==> (#[trigger] r@[g].1@[m1])
                < (#[trigger] r@[g].1@[m2]),
        forall|i: int| 0 <= i < apis@.len() ==> placed(r@, i, level_of(#[trigger] apis@[i])),
{
    let mut r: Vec<(u8, Vec<usize>)> = Vec::new();
    let mut lv: u16 = 0;
    while lv < 256
        invariant
            lv <= 256,
            forall|g: int| 0 <= g < r@.len() ==> (#[trigger] r@[g]).0 < lv,
            forall|g1: int, g2: int| 0 <= g1 < g2 < r@.len() ==> r@[g1].0 < r@[g2].0,
            forall|g: int| 0 <= g < r@.len() ==> (#[trigger] r@[g]).1@.len() > 0,
            forall|g: int, m: int|
                0 <= g < r@.len() && 0 <= m < r@[g].1@.len() ==> (#[trigger] r@[g].1@[m])
                    < apis@.len() && level_of(apis@[r@[g].1@[m] as int]) == r@[g].0,
            forall|g: int, m1: int, m2: int|
                0 <= g < r@.len() && 0 <= m1 < m2 < r@[g].1@.len() ==> (#[trigger] r@[g].1@[m1])
                    < (#[trigger] r@[g].1@[m2]),
            forall|i: int|
                0 <= i < apis@.len() && level_of(#[trigger] apis@[i]) < lv ==> placed(
                    r@,
                    i,
                    level_of(apis@[i]),
                ),
        decreases 256 - lv,
    {
        let members = indices_at_level(apis, lv as u8);
        if members.len() > 0 {
            let ghost before = r@;
            r.push((lv as u8, members));
            assert forall|i: int|
                0 <= i < apis@.len() && level_of(#[trigger] apis@[i]) < lv + 1 implies placed(
                r@,
                i,
                level_of(apis@[i]),
            ) by {
                if level_of(apis@[i]) < lv {
                    let (g, m) = choose|g: int, m: int|
                        0 <= g < before.len() && 0 <= m < before[g].1@.len() && before[g].0
                            == level_of(apis@[i]) && (#[trigger] before[g].1@[m]) == i;
                    assert(r@[g] == before[g]);
                    assert(r@[g].1@[m] == i);
                } else {
                    let g = before.len() as int;
                    let m = choose|m: int| 0 <= m < r@[g].1@.len() && r@[g].1@[m] == i;
                    assert(r@[g].0 == level_of(apis@[i]));
                    assert(r@[g].1@[m] == i);
                }
            }
        } else {
            assert forall|i: int|
                0 <= i < apis@.len() && level_of(#[trigger] apis@[i]) < lv + 1 implies level_of(
                apis@[i],
            ) < lv by {
                if level_of(apis@[i]) == lv {
                    let m = choose|m: int| 0 <= m < members@.len() && members@[m] == i;
                }
            }
        }
        lv = lv + 1;
    }
    r
}

} // verus!
