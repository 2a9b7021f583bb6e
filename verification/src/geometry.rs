//! Mesh topology and the deterministic random stream behind the starfield.

use vstd::prelude::*;

verus! {

/// Position in the index buffer of corner `r` of the quad at (`la`, `lo`).
pub open spec fn sphere_slot(lon_segments: int, la: int, lo: int, r: int) -> int {
    6 * (la * lon_segments + lo) + r
}

/// Vertex referenced by corner `r` (0-5) of the two triangles of the quad
/// whose top-left vertex is ring `la`, meridian `lo`. Vertices are laid out
/// ring by ring, `lon_segments + 1` per ring.
pub open spec fn sphere_corner(lon_segments: int, la: int, lo: int, r: int) -> int {
    let a = la * (lon_segments + 1) + lo;
    let b = a + lon_segments + 1;
    if r == 0 {
        a
    } else if r == 1 {
        b
    } else if r == 2 || r == 3 {
        a + 1
    } else if r == 4 {
        b
    } else {
        b + 1
    }
}

proof fn lemma_slot_bounds(m: int, la: int, lo: int, r: int)
    requires
        0 <= lo < m,
        0 <= la,
        0 <= r < 6,
    ensures
        6 * (la * m + lo) <= sphere_slot(m, la, lo, r) < 6 * (la * m + lo + 1),
{
}

proof fn lemma_corner_bound(n: int, m: int, la: int, lo: int, r: int)
    requires
        0 <= la < n,
        0 <= lo < m,
        0 <= r < 6,
    ensures
        0 <= sphere_corner(m, la, lo, r) < (n + 1) * (m + 1),
{
    assert(la * (m + 1) <= (n - 1) * (m + 1)) by (nonlinear_arith)
        requires
            0 <= la <= n - 1,
            0 <= m,
    ;
    assert((n - 1) * (m + 1) + 2 * m + 1 == (n + 1) * (m + 1) - 1) by (nonlinear_arith);
    assert(0 <= la * (m + 1)) by (nonlinear_arith)
        requires
            0 <= la,
            0 <= m,
    ;
}

/// Triangle indices of a UV sphere with `lat_segments` rings of
/// `lon_segments` quads: two counter-clockwise triangles per quad.
pub fn sphere_indices(lat_segments: u32, lon_segments: u32) -> (v: Vec<u32>)
    requires
        (lat_segments + 1) * (lon_segments + 1) <= u32::MAX,
        6 * lat_segments * lon_segments <= usize::MAX,
    ensures
        v@.len() == 6 * lat_segments * lon_segments,
        forall|la: int, lo: int, r: int|
            0 <= la < lat_segments && 0 <= lo < lon_segments && 0 <= r < 6 ==> #[trigger] v@[sphere_slot(
                lon_segments as int,
                la,
                lo,
                r,
            )] == sphere_corner(lon_segments as int, la, lo, r),
{
    let n = lat_segments;
    let m = lon_segments;
    let ghost mi = m as int;
    let ghost ni = n as int;
    let mut v: Vec<u32> = Vec::new();
    proof {
        assert(m + 1 <= (n + 1) * (m + 1)) by (nonlinear_arith);
    }
    let stride = m + 1;
    let mut lat: u32 = 0;
    while lat < n
        invariant
            lat <= n,
            mi == m as int,
            ni == n as int,
            stride == m + 1,
            (n + 1) * (m + 1) <= u32::MAX,
            6 * n * m <= usize::MAX,
            v@.len() == 6 * (lat * m),
            forall|la: int, lo: int, r: int|
                0 <= la < lat && 0 <= lo < m && 0 <= r < 6 ==> #[trigger] v@[sphere_slot(
                    mi,
                    la,
                    lo,
                    r,
                )] == sphere_corner(mi, la, lo, r),
        decreases n - lat,
    {
        let mut lon: u32 = 0;
        while lon < m
            invariant
                lat < n,
                lon <= m,
                mi == m as int,
                ni == n as int,
                stride == m + 1,
                (n + 1) * (m + 1) <= u32::MAX,
                6 * n * m <= usize::MAX,
                v@.len() == 6 * (lat * m + lon),
                forall|la: int, lo: int, r: int|
                    0 <= r < 6 && 0 <= lo < m && (0 <= la < lat || (la == lat && lo < lon))
                        ==> #[trigger] v@[sphere_slot(mi, la, lo, r)] == sphere_corner(
                        mi,
                        la,
                        lo,
                        r,
                    ),
            decreases m - lon,
        {
            proof {
                lemma_corner_bound(ni, mi, lat as int, lon as int, 5);
                assert(lat * m + lon < n * m) by (nonlinear_arith)
                    requires
                        lat < n,
                        lon < m,
                ;
            }
            let a = lat * stride + lon;
            let b = a + stride;
            let ghost base = v@.len();
            let ghost old_v = v@;
            v.push(a);
            v.push(b);
            v.push(a + 1);
            v.push(a + 1);
            v.push(b);
            v.push(b + 1);
            proof {
                assert forall|la: int, lo: int, r: int|
                    0 <= r < 6 && 0 <= lo < m && (0 <= la < lat || (la == lat && lo < lon + 1))
                        implies #[trigger] v@[sphere_slot(mi, la, lo, r)] == sphere_corner(
                        mi,
                        la,
                        lo,
                        r,
                    ) by {
                    lemma_slot_bounds(mi, la, lo, r);
                    if la == lat && lo == lon {
                        assert(sphere_slot(mi, la, lo, r) == base + r);
                    } else {
                        assert(la * mi + lo < lat * mi + lon) by (nonlinear_arith)
                            requires
                                0 <= lo < mi,
                                0 <= la,
                                la < lat || (la == lat && lo < lon),
                        ;
                        assert(v@[sphere_slot(mi, la, lo, r)] == old_v[sphere_slot(mi, la, lo, r)]);
                    }
                }
            }
            lon = lon + 1;
        }
        proof {
            assert(6 * (lat * m + m) == 6 * ((lat + 1) * m)) by (nonlinear_arith);
        }
        lat = lat + 1;
    }
    proof {
        assert(6 * (n * m) == 6 * n * m) by (nonlinear_arith);
    }
    v
}

/// Every index of the sphere mesh names one of its `(lat_segments + 1) *
/// (lon_segments + 1)` vertices, and every buffer position belongs to one
/// quad corner.
pub proof fn lemma_sphere_indices_in_range(n: int, m: int, k: int)
    requires
        0 <= k < 6 * n * m,
        0 < m,
    ensures
        ({
            let q = k / 6;
            let la = q / m;
            let lo = q % m;
            let r = k % 6;
            &&& 0 <= la < n && 0 <= lo < m && 0 <= r < 6
            &&& sphere_slot(m, la, lo, r) == k
            &&& 0 <= sphere_corner(m, la, lo, r) < (n + 1) * (m + 1)
        }),
{
    let q = k / 6;
    let la = q / m;
    let lo = q % m;
    let r = k % 6;
    assert(k == 6 * q + r && 0 <= r < 6) by (nonlinear_arith)
        requires
            q == k / 6,
            r == k % 6,
            0 <= k,
    ;
    assert(q == la * m + lo && 0 <= lo < m && 0 <= la) by (nonlinear_arith)
        requires
            la == q / m,
            lo == q % m,
            0 <= q,
            0 < m,
    ;
    assert(q < n * m) by (nonlinear_arith)
        requires
            k == 6 * q + r,
            0 <= r,
            k < 6 * n * m,
    ;
    assert(la < n) by (nonlinear_arith)
        requires
            q == la * m + lo,
            0 <= lo,
            q < n * m,
            0 < m,
    ;
    lemma_corner_bound(n, m, la, lo, r);
}

// ─── Starfield random stream ────────────────────────────────────

/// One step of the 32-bit xorshift generator (shifts 13, 17, 5).
pub open spec fn spec_xorshift32(s: u32) -> u32 {
    let a = s ^ (s << 13u32);
    let b = a ^ (a >> 17u32);
    b ^ (b << 5u32)
}

/// One step of the 32-bit xorshift generator (shifts 13, 17, 5).
pub fn xorshift32(s: u32) -> (r: u32)
    ensures
        r == spec_xorshift32(s),
{
    let mut x = s;
    x = x ^ (x << 13u32);
    x = x ^ (x >> 17u32);
    x = x ^ (x << 5u32);
    x
}

/// A nonzero state never collapses to zero, so the stream never gets stuck.
pub proof fn lemma_xorshift32_nonzero(s: u32)
    requires
        s != 0,
    ensures
        spec_xorshift32(s) != 0,
{
    assert(s != 0 ==> (s ^ (s << 13u32)) ^ ((s ^ (s << 13u32)) >> 17u32) ^ (((s ^ (s << 13u32))
        ^ ((s ^ (s << 13u32)) >> 17u32)) << 5u32) != 0) by (bit_vector);
}

} // verus!
