//! The toad-video picker.
//!
//! The weekly digest carries a link to one video, drawn at random from a
//! fixed list.  Which one comes out is chance; what is proved is that
//! the result is always the link of some listed video.

use vstd::prelude::*;

verus! {

/// How many videos the list holds.
pub const TOAD_COUNT: u64 = 52;

/// The video id at a list position.
pub open spec fn spec_toad_id(i: int) -> Seq<char> {
    if i == 0 {
        "9K4-jllrPrE"@
    } else if i == 1 {
        "bbat6cvgEJ8"@
    } else if i == 2 {
        "Oct2xKMGOno"@
    } else if i == 3 {
        "DREDJ4fkz-g"@
    } else if i == 4 {
        "gxm5SwfkwcI"@
    } else if i == 5 {
        "oVxFk_IIB2o"@
    } else if i == 6 {
        "SePVlroq6AI"@
    } else if i == 7 {
        "JHO61_wDC30"@
    } else if i == 8 {
        "EBNEPil4da0"@
    } else if i == 9 {
        "pXv4zQ6dYPQ"@
    } else if i == 10 {
        "hzGQSlrB1_o"@
    } else if i == 11 {
        "Y_xlWdgi1ew"@
    } else if i == 12 {
        "szqNmefKXxc"@
    } else if i == 13 {
        "OzQ-KvxLVT0"@
    } else if i == 14 {
        "zl6phK1mXC4"@
    } else if i == 15 {
        "7aTtNNjIyi4"@
    } else if i == 16 {
        "1CH-7qjz4D4"@
    } else if i == 17 {
        "YSDAAh6Lps4"@
    } else if i == 18 {
        "fyJGKEswuSc"@
    } else if i == 19 {
        "csqJK8wwaHw"@
    } else if i == 20 {
        "KSwnFzlPEuY"@
    } else if i == 21 {
        "aew9WTLqjDc"@
    } else if i == 22 {
        "m2Z0CyuyfMI"@
    } else if i == 23 {
        "VaPMUACYWww"@
    } else if i == 24 {
        "_87k7gxeVsw"@
    } else if i == 25 {
        "3RSL5k3yZOM"@
    } else if i == 26 {
        "VXc47lVx7Eo"@
    } else if i == 27 {
        "0W51GIxnwKc"@
    } else if i == 28 {
        "VfaNCw2bF48"@
    } else if i == 29 {
        "It8RbsGIe48"@
    } else if i == 30 {
        "NBPlPowAsNc"@
    } else if i == 31 {
        "IaE0g3oVIZ0"@
    } else if i == 32 {
        "VzigPnZ8OYE"@
    } else if i == 33 {
        "meuYC7FP7HU"@
    } else if i == 34 {
        "N3e7G9OxfhI"@
    } else if i == 35 {
        "IR0QUwGmo4A"@
    } else if i == 36 {
        "ESNBnxtpKqI"@
    } else if i == 37 {
        "036ItQLi-sQ"@
    } else if i == 38 {
        "Kz26jod9-cQ"@
    } else if i == 39 {
        "LrleLDD8CJM"@
    } else if i == 40 {
        "ZHS5yAwApUs"@
    } else if i == 41 {
        "PE8GlPpuLuY"@
    } else if i == 42 {
        "4Sr5pRpDZMk"@
    } else if i == 43 {
        "qCsYa8PeVfU"@
    } else if i == 44 {
        "-R40VcLKyIw"@
    } else if i == 45 {
        "7dr2s59XnBE"@
    } else if i == 46 {
        "iTl1l3GFMJ8"@
    } else if i == 47 {
        "In9Bs1wiF5s"@
    } else if i == 48 {
        "zHpFuOlPrlQ"@
    } else if i == 49 {
        "Xf_wuAQ-t44"@
    } else if i == 50 {
        "frNFBv2QIoE"@
    } else {
        "PAnKl7862qc"@
    }
}

/// A link to the video at a list position.
pub open spec fn spec_toad_url(i: int) -> Seq<char> {
    "https://youtu.be/"@ + spec_toad_id(i)
}

/// Relies on rand::random_range: a uniformly drawn number below `n`.
/// The draw panics on an empty range, so `n` must be positive.
#[verifier::external_body]
fn random_below(n: u64) -> (r: u64)
    requires
        n > 0,
    ensures
        r < n,
{
    rand::random_range(0..n)
}

/// The video id at a list position.
pub fn toad_id(i: u64) -> (r: &'static str)
    requires
        i < TOAD_COUNT,
    ensures
        r@ == spec_toad_id(i as int),
{
    match i {
        0 => "9K4-jllrPrE",
        1 => "bbat6cvgEJ8",
        2 => "Oct2xKMGOno",
        3 => "DREDJ4fkz-g",
        4 => "gxm5SwfkwcI",
        5 => "oVxFk_IIB2o",
        6 => "SePVlroq6AI",
        7 => "JHO61_wDC30",
        8 => "EBNEPil4da0",
        9 => "pXv4zQ6dYPQ",
        10 => "hzGQSlrB1_o",
        11 => "Y_xlWdgi1ew",
        12 => "szqNmefKXxc",
        13 => "OzQ-KvxLVT0",
        14 => "zl6phK1mXC4",
        15 => "7aTtNNjIyi4",
        16 => "1CH-7qjz4D4",
        17 => "YSDAAh6Lps4",
        18 => "fyJGKEswuSc",
        19 => "csqJK8wwaHw",
        20 => "KSwnFzlPEuY",
        21 => "aew9WTLqjDc",
        22 => "m2Z0CyuyfMI",
        23 => "VaPMUACYWww",
        24 => "_87k7gxeVsw",
        25 => "3RSL5k3yZOM",
        26 => "VXc47lVx7Eo",
        27 => "0W51GIxnwKc",
        28 => "VfaNCw2bF48",
        29 => "It8RbsGIe48",
        30 => "NBPlPowAsNc",
        31 => "IaE0g3oVIZ0",
        32 => "VzigPnZ8OYE",
        33 => "meuYC7FP7HU",
        34 => "N3e7G9OxfhI",
        35 => "IR0QUwGmo4A",
        36 => "ESNBnxtpKqI",
        37 => "036ItQLi-sQ",
        38 => "Kz26jod9-cQ",
        39 => "LrleLDD8CJM",
        40 => "ZHS5yAwApUs",
        41 => "PE8GlPpuLuY",
        42 => "4Sr5pRpDZMk",
        43 => "qCsYa8PeVfU",
        44 => "-R40VcLKyIw",
        45 => "7dr2s59XnBE",
        46 => "iTl1l3GFMJ8",
        47 => "In9Bs1wiF5s",
        48 => "zHpFuOlPrlQ",
        49 => "Xf_wuAQ-t44",
        50 => "frNFBv2QIoE",
        _ => "PAnKl7862qc",
    }
}

/// A link to one of the listed videos, drawn at random.
pub fn get_toad() -> (r: String)
    ensures
        exists|i: int| 0 <= i < TOAD_COUNT && r@ == spec_toad_url(i),
{
    let i = random_below(TOAD_COUNT);
    let mut url = "https://youtu.be/".to_owned();
    url.append(toad_id(i));
    proof {
        assert(url@ == spec_toad_url(i as int));
    }
    url
}

} // verus!
