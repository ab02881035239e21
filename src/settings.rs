//! Build-time identity settings: PCI identifiers in hexadecimal, the IEEE
//! OUI as `XX-XX-XX`, and the build epoch in decimal seconds.
use vstd::prelude::*;
use vstd::string::{StrSliceExecFns, StringSliceAdditionalSpecFns};
use crate::model::SubsystemInfo;

verus! {

/// The value of a digit in base `radix` (10 or 16), or -1.
pub open spec fn digit_value(c: u8, radix: int) -> int {
    if 0x30 <= c <= 0x39 && (c - 0x30) < radix {
        c - 0x30
    } else if radix == 16 && 0x61 <= c <= 0x66 {
        c - 0x61 + 10
    } else if radix == 16 && 0x41 <= c <= 0x46 {
        c - 0x41 + 10
    } else {
        -1
    }
}

/// The number that a string of digits denotes.
pub open spec fn digits_value(s: Seq<u8>, radix: int) -> int
    decreases s.len(),
{
    if s.len() == 0 {
        0
    } else {
        radix * digits_value(s.drop_last(), radix) + digit_value(s.last(), radix)
    }
}

pub open spec fn all_digits(s: Seq<u8>, radix: int) -> bool {
    forall|i: int| 0 <= i < s.len() ==> digit_value(#[trigger] s[i], radix) >= 0
}

/// The digits of a number, after an optional leading `+`.
pub open spec fn unsigned_digits(s: Seq<u8>) -> Seq<u8> {
    if s.len() > 0 && s[0] == 0x2b {
        s.drop_first()
    } else {
        s
    }
}

/// An unsigned number in base `radix` that is at most `max`: an optional
/// `+`, then one or more digits.
pub open spec fn parse_number(s: Seq<u8>, radix: int, max: int) -> Option<int> {
    let d = unsigned_digits(s);
    if d.len() > 0 && all_digits(d, radix) && digits_value(d, radix) <= max {
        Some(digits_value(d, radix))
    } else {
        None
    }
}

proof fn lemma_digits_grow(s: Seq<u8>, radix: int, n: int)
    requires
        radix == 10 || radix == 16,
        all_digits(s, radix),
        0 <= n <= s.len(),
    ensures
        digits_value(s.subrange(0, n), radix) <= digits_value(s, radix),
        digits_value(s, radix) >= 0,
    decreases s.len(),
{
    if s.len() > 0 {
        let p = s.drop_last();
        assert forall|i: int| 0 <= i < p.len() implies digit_value(#[trigger] p[i], radix) >= 0 by {
            assert(p[i] == s[i]);
        }
        assert(digit_value(s[s.len() - 1], radix) >= 0);
        if n == s.len() {
            assert(s.subrange(0, n) =~= s);
            lemma_digits_grow(p, radix, 0);
        } else {
            lemma_digits_grow(p, radix, n);
            assert(s.subrange(0, n) =~= p.subrange(0, n));
            assert(digits_value(p, radix) <= radix * digits_value(p, radix)) by (nonlinear_arith)
                requires
                    digits_value(p, radix) >= 0,
                    radix >= 1,
            ;
        }
    } else {
        assert(s.subrange(0, n) =~= s);
    }
}

fn digit_of(c: u8, radix: u32) -> (r: Option<u32>)
    requires
        radix == 10 || radix == 16,
    ensures
        digit_value(c, radix as int) < 0 ==> r is None,
        digit_value(c, radix as int) >= 0 ==> r == Some(digit_value(c, radix as int) as u32),
{
    if 0x30 <= c && c <= 0x39 && ((c - 0x30) as u32) < radix {
        Some((c - 0x30) as u32)
    } else if radix == 16 && 0x61 <= c && c <= 0x66 {
        Some((c - 0x61 + 10) as u32)
    } else if radix == 16 && 0x41 <= c && c <= 0x46 {
        Some((c - 0x41 + 10) as u32)
    } else {
        None
    }
}

/// Parses an unsigned number of at most `max` in base `radix`.
pub fn parse_number_exec(s: &[u8], radix: u32, max: u64) -> (r: Option<u64>)
    requires
        radix == 10 || radix == 16,
    ensures
        r is None <==> parse_number(s@, radix as int, max as int) is None,
        r matches Some(v) ==> v as int == parse_number(s@, radix as int, max as int)->Some_0,
{
    let start: usize = if s.len() > 0 && s[0] == 0x2b {
        1
    } else {
        0
    };
    let ghost d = unsigned_digits(s@);
    assert(d =~= s@.subrange(start as int, s@.len() as int));
    if start >= s.len() {
        assert(d.len() == 0);
        return None;
    }
    let mut acc: u128 = 0;
    let mut i: usize = start;
    while i < s.len()
        invariant
            radix == 10 || radix == 16,
            start <= i <= s@.len(),
            d == unsigned_digits(s@),
            d == s@.subrange(start as int, s@.len() as int),
            all_digits(d.subrange(0, i - start), radix as int),
            acc == digits_value(d.subrange(0, i - start), radix as int),
            acc <= max,
        decreases s@.len() - i,
    {
        let ghost k = i - start;
        assert(d.subrange(0, k + 1).drop_last() =~= d.subrange(0, k));
        assert(d.subrange(0, k + 1).last() == d[k]);
        assert(d[k] == s@[i as int]);
        match digit_of(s[i], radix) {
            None => {
                assert(d[k] == s@[i as int]);
                assert(!all_digits(d, radix as int));
                return None;
            },
            Some(v) => {
                assert(d[k] == s@[i as int]);
                assert forall|j: int| 0 <= j < k + 1 implies digit_value(
                    #[trigger] d.subrange(0, k + 1)[j],
                    radix as int,
                ) >= 0 by {
                    if j < k {
                        assert(d.subrange(0, k + 1)[j] == d.subrange(0, k)[j]);
                    }
                }
                assert(acc * (radix as u128) <= 0xffff_ffff_ffff_ffff * 16) by (nonlinear_arith)
                    requires
                        acc <= 0xffff_ffff_ffff_ffff,
                        radix <= 16,
                ;
                let next: u128 = acc * (radix as u128) + (v as u128);
                assert(v as int == digit_value(d[k], radix as int));
                assert(digits_value(d.subrange(0, k + 1), radix as int) == (radix as int)
                    * digits_value(d.subrange(0, k), radix as int) + digit_value(d[k], radix as int));
                assert((acc as int) * (radix as int) == (radix as int) * (acc as int))
                    by (nonlinear_arith);
                assert(next == digits_value(d.subrange(0, k + 1), radix as int));
                if next > max as u128 {
                    proof {
                        if all_digits(d, radix as int) {
                            lemma_digits_grow(d, radix as int, k + 1);
                        }
                    }
                    return None;
                }
                acc = next;
            },
        }
        i = i + 1;
    }
    assert(d.subrange(0, d.len() as int) =~= d);
    Some(acc as u64)
}

/// The pieces of `s` between dashes.
pub open spec fn dash_pieces(s: Seq<u8>) -> Seq<Seq<u8>>
    decreases s.len(),
{
    if s.len() == 0 {
        seq![seq![]]
    } else {
        let p = dash_pieces(s.drop_last());
        if s.last() == 0x2d {
            p.push(seq![])
        } else {
            p.update(p.len() - 1, p.last().push(s.last()))
        }
    }
}

proof fn lemma_dash_pieces_nonempty(s: Seq<u8>)
    ensures
        dash_pieces(s).len() >= 1,
    decreases s.len(),
{
    if s.len() > 0 {
        lemma_dash_pieces_nonempty(s.drop_last());
    }
}

/// An IEEE OUI written `XX-XX-XX`: the first three pieces, each a byte in
/// hexadecimal; missing pieces leave zeros and later ones are ignored.
pub open spec fn parse_oui(s: Seq<u8>) -> Option<Seq<u8>> {
    let p = dash_pieces(s);
    if forall|k: int| 0 <= k < 3 && k < p.len() ==> parse_number(#[trigger] p[k], 16, 0xff) is Some {
        Some(
            Seq::new(
                3,
                |k: int|
                    if k < p.len() {
                        parse_number(p[k], 16, 0xff)->Some_0 as u8
                    } else {
                        0u8
                    },
            ),
        )
    } else {
        None
    }
}

fn dash_pieces_exec(s: &[u8]) -> (r: Vec<Vec<u8>>)
    ensures
        r@.len() == dash_pieces(s@).len(),
        forall|k: int| 0 <= k < r@.len() ==> (#[trigger] r@[k])@ == dash_pieces(s@)[k],
{
    let mut out: Vec<Vec<u8>> = Vec::new();
    out.push(Vec::new());
    let mut i: usize = 0;
    assert(s@.subrange(0, 0) =~= Seq::<u8>::empty());
    while i < s.len()
        invariant
            i <= s@.len(),
            out@.len() == dash_pieces(s@.subrange(0, i as int)).len(),
            out@.len() >= 1,
            forall|k: int|
                0 <= k < out@.len() ==> (#[trigger] out@[k])@ == dash_pieces(
                    s@.subrange(0, i as int),
                )[k],
        decreases s@.len() - i,
    {
        let ghost before = out@;
        assert(s@.subrange(0, i + 1).drop_last() =~= s@.subrange(0, i as int));
        if s[i] == 0x2d {
            out.push(Vec::new());
        } else {
            let last = out.len() - 1;
            out[last].push(s[i]);
            assert forall|k: int| 0 <= k < out@.len() implies (#[trigger] out@[k])@ == dash_pieces(
                s@.subrange(0, i + 1),
            )[k] by {
                if k != last {
                    assert(out@[k] == before[k]);
                }
            }
        }
        i = i + 1;
    }
    assert(s@.subrange(0, s@.len() as int) =~= s@);
    out
}

pub fn parse_oui_exec(s: &[u8]) -> (r: Option<[u8; 3]>)
    ensures
        match parse_oui(s@) {
            Some(o) => r is Some && r->Some_0@ == o,
            None => r is None,
        },
{
    let pieces = dash_pieces_exec(s);
    let mut oui: [u8; 3] = [0u8; 3];
    let mut k: usize = 0;
    while k < 3 && k < pieces.len()
        invariant
            k <= 3,
            k <= pieces@.len(),
            pieces@.len() == dash_pieces(s@).len(),
            forall|j: int| 0 <= j < pieces@.len() ==> (#[trigger] pieces@[j])@ == dash_pieces(s@)[j],
            forall|j: int|
                0 <= j < k ==> parse_number(#[trigger] dash_pieces(s@)[j], 16, 0xff) is Some
                    && oui@[j] == parse_number(dash_pieces(s@)[j], 16, 0xff)->Some_0 as u8,
            forall|j: int| k <= j < 3 ==> oui@[j] == 0,
        decreases 3 - k,
    {
        match parse_number_exec(pieces[k].as_slice(), 16, 0xff) {
            Some(v) => {
                let ghost before = oui@;
                assert(pieces@[k as int]@ == dash_pieces(s@)[k as int]);
                assert(parse_number(dash_pieces(s@)[k as int], 16, 0xff) is Some);
                assert(v as int == parse_number(dash_pieces(s@)[k as int], 16, 0xff)->Some_0);
                oui[k] = v as u8;
                assert(oui@[k as int] == parse_number(dash_pieces(s@)[k as int], 16, 0xff)->Some_0 as u8);
                assert forall|j: int|
                    0 <= j < k + 1 implies parse_number(#[trigger] dash_pieces(s@)[j], 16, 0xff) is Some
                    && oui@[j] == parse_number(dash_pieces(s@)[j], 16, 0xff)->Some_0 as u8 by {
                    if j < k {
                        assert(oui@[j] == before[j]);
                    }
                }
            },
            None => {
                assert(!(forall|j: int|
                    0 <= j < 3 && j < dash_pieces(s@).len() ==> parse_number(
                        #[trigger] dash_pieces(s@)[j],
                        16,
                        0xff,
                    ) is Some));
                return None;
            },
        }
        k = k + 1;
    }
    assert(oui@ =~= parse_oui(s@)->Some_0);
    Some(oui)
}

/// The identity that build-time settings describe: each PCI identifier in
/// hexadecimal (default `ffff`), the IEEE OUI (default `ac-de-48`), and the
/// build epoch in decimal seconds (default, or when unreadable, 0), whose
/// eight little-endian bytes open the instance seed. `None` when a PCI
/// identifier or the OUI cannot be read.
pub open spec fn info_from_settings(
    vid: Seq<u8>,
    did: Seq<u8>,
    svid: Seq<u8>,
    sdid: Seq<u8>,
    oui: Seq<u8>,
    epoch: Seq<u8>,
) -> Option<(u16, u16, u16, u16, Seq<u8>, u64)> {
    match (
        parse_number(vid, 16, 0xffff),
        parse_number(did, 16, 0xffff),
        parse_number(svid, 16, 0xffff),
        parse_number(sdid, 16, 0xffff),
        parse_oui(oui),
    ) {
        (Some(a), Some(b), Some(c), Some(d), Some(o)) => Some(
            (
                a as u16,
                b as u16,
                c as u16,
                d as u16,
                o,
                match parse_number(epoch, 10, 0xffff_ffff_ffff_ffff) {
                    Some(e) => e as u64,
                    None => 0,
                },
            ),
        ),
        _ => None,
    }
}

/// A setting's text, or its default when absent.
pub open spec fn setting_text(o: Option<&str>, default: Seq<u8>) -> Seq<u8> {
    match o {
        Some(s) => s.spec_bytes(),
        None => default,
    }
}

fn setting_bytes(o: Option<&str>, default: &[u8]) -> (r: Vec<u8>)
    ensures
        r@ == setting_text(o, default@),
{
    match o {
        Some(s) => s.as_bytes_vec(),
        None => vstd::slice::slice_to_vec(default),
    }
}

/// The instance seed: the epoch's eight little-endian bytes, then zeros.
fn instance_seed(t: u64) -> (r: [u8; 16])
    ensures
        r@ == crate::wire::le64(t) + crate::wire::zeros(8),
{
    let mut seed: Vec<u8> = Vec::new();
    crate::wire::push_le64(&mut seed, t);
    crate::wire::push_zeros(&mut seed, 8);
    let mut instance: [u8; 16] = [0u8; 16];
    let mut i: usize = 0;
    while i < 16
        invariant
            i <= 16,
            seed@ == crate::wire::le64(t) + crate::wire::zeros(8),
            seed@.len() == 16,
            forall|j: int| 0 <= j < i ==> instance@[j] == seed@[j],
        decreases 16 - i,
    {
        instance[i] = seed[i];
        i = i + 1;
    }
    assert(instance@ =~= seed@);
    instance
}

/// The default of each PCI identifier.
pub open spec fn default_pci_id() -> Seq<u8> {
    seq![0x66u8, 0x66u8, 0x66u8, 0x66u8]
}

/// The default IEEE OUI, `ac-de-48`.
pub open spec fn default_oui() -> Seq<u8> {
    seq![0x61u8, 0x63u8, 0x2du8, 0x64u8, 0x65u8, 0x2du8, 0x34u8, 0x38u8]
}

impl SubsystemInfo {
    /// Builds the identity from build-time settings; an absent setting takes
    /// its default (`ffff`, `ac-de-48`, epoch 0).
    pub fn from_settings(
        pci_vid: Option<&str>,
        pci_did: Option<&str>,
        pci_svid: Option<&str>,
        pci_sdid: Option<&str>,
        ieee_oui: Option<&str>,
        source_date_epoch: Option<&str>,
    ) -> (r: Option<SubsystemInfo>)
        ensures
            match info_from_settings(
                setting_text(pci_vid, default_pci_id()),
                setting_text(pci_did, default_pci_id()),
                setting_text(pci_svid, default_pci_id()),
                setting_text(pci_sdid, default_pci_id()),
                setting_text(ieee_oui, default_oui()),
                setting_text(source_date_epoch, seq![0x30u8]),
            ) {
                Some(v) => r is Some && r->Some_0.pci_vid == v.0 && r->Some_0.pci_did == v.1
                    && r->Some_0.pci_svid == v.2 && r->Some_0.pci_sdid == v.3
                    && r->Some_0.ieee_oui@ == v.4 && r->Some_0.instance@ == crate::wire::le64(v.5)
                    + crate::wire::zeros(8),
                None => r is None,
            },
    {
        let ffff: [u8; 4] = [0x66, 0x66, 0x66, 0x66];
        let oui_default: [u8; 8] = [0x61, 0x63, 0x2d, 0x64, 0x65, 0x2d, 0x34, 0x38];
        let epoch_default: [u8; 1] = [0x30];
        assert(ffff@ =~= default_pci_id());
        assert(oui_default@ =~= default_oui());
        assert(epoch_default@ =~= seq![0x30u8]);
        let vid = setting_bytes(pci_vid, &ffff);
        let did = setting_bytes(pci_did, &ffff);
        let svid = setting_bytes(pci_svid, &ffff);
        let sdid = setting_bytes(pci_sdid, &ffff);
        let oui_text = setting_bytes(ieee_oui, &oui_default);
        let epoch_text = setting_bytes(source_date_epoch, &epoch_default);
        let a = parse_number_exec(vid.as_slice(), 16, 0xffff);
        let b = parse_number_exec(did.as_slice(), 16, 0xffff);
        let c = parse_number_exec(svid.as_slice(), 16, 0xffff);
        let e = parse_number_exec(sdid.as_slice(), 16, 0xffff);
        let o = parse_oui_exec(oui_text.as_slice());
        let t = match parse_number_exec(epoch_text.as_slice(), 10, 0xffff_ffff_ffff_ffff) {
            Some(t) => t,
            None => 0,
        };
        match (a, b, c, e, o) {
            (Some(a), Some(b), Some(c), Some(e), Some(o)) => Some(
                SubsystemInfo {
                    pci_vid: a as u16,
                    pci_did: b as u16,
                    pci_svid: c as u16,
                    pci_sdid: e as u16,
                    ieee_oui: o,
                    instance: instance_seed(t),
                },
            ),
            _ => None,
        }
    }
}

} // verus!
