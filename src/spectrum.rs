//! Spectrum analysis on fixed-point values: band layout, magnitudes,
//! normalisation, perceptual shaping, smoothing and idle decay.
//!
//! Levels and bar heights are in thousandths (`1000` is full scale) and
//! frequencies in millihertz.

use vstd::prelude::*;
use crate::ring::{SampleRing, newest};

verus! {

/// Number of bars in a frame.
pub const BAR_COUNT: usize = 32;

/// Samples per transform window.
pub const FFT_SIZE: usize = 2048;

/// Usable frequency bins of one transform (`FFT_SIZE / 2`).
pub const HALF_BINS: usize = 1024;

/// Full scale of a level or bar height.
pub const FULL_SCALE: u64 = 1000;

/// Lowest and highest bar height.
pub const BAR_FLOOR: u32 = 50;
pub const BAR_CEIL: u32 = 950;

/// Height of every bar before the first analysis.
pub const BAR_START: u32 = 100;

/// Lower edge of the first band, in millihertz (60 Hz).
pub const MIN_FREQ_MHZ: u64 = 60000;

/// Upper edge of the last band, in millihertz (16 kHz).
pub const MAX_FREQ_MHZ: u64 = 16000000;

/// `e` is edge `i`, in millihertz, rounded down: `60 Hz · (16000 / 60)^(i / 32)`
/// lies in `[e, e + 1)`, that is `e^32 · 3^i <= 60000^32 · 800^i < (e + 1)^32 · 3^i`.
pub open spec fn is_edge(i: nat, e: nat) -> bool {
    &&& pow32(e) * pow_nat(3, i) <= pow32(60000) * pow_nat(800, i)
    &&& pow32(60000) * pow_nat(800, i) < pow32(e + 1) * pow_nat(3, i)
}

/// `x^32`, by five squarings.
pub open spec fn pow32(x: nat) -> nat {
    let x2 = x * x;
    let x4 = x2 * x2;
    let x8 = x4 * x4;
    let x16 = x8 * x8;
    x16 * x16
}

proof fn lemma_pow32_mono(a: nat, b: nat)
    requires
        a <= b,
    ensures
        pow32(a) <= pow32(b),
{
    assert forall|x: nat, y: nat| x <= y implies #[trigger] (x * x) <= #[trigger] (y * y) by {
        assert(x * x <= y * y) by (nonlinear_arith)
            requires
                x <= y,
        ;
    }
}

/// Lower edge of band `i` (upper edge of band `i - 1`), in millihertz: the
/// edges are spaced logarithmically from 60 Hz (edge 0) to 16 kHz (edge
/// `BAR_COUNT`).
pub open spec fn edge_mhz(i: nat) -> nat {
    choose|e: nat| is_edge(i, e)
}

/// The edges, worked out.
spec fn edge_table(i: nat) -> nat {
    if i == 0 {
        60000
    } else if i == 1 {
        71443
    } else if i == 2 {
        85069
    } else if i == 3 {
        101294
    } else if i == 4 {
        120613
    } else if i == 5 {
        143617
    } else if i == 6 {
        171009
    } else if i == 7 {
        203625
    } else if i == 8 {
        242461
    } else if i == 9 {
        288705
    } else if i == 10 {
        343768
    } else if i == 11 {
        409334
    } else if i == 12 {
        487404
    } else if i == 13 {
        580364
    } else if i == 14 {
        691054
    } else if i == 15 {
        822856
    } else if i == 16 {
        979795
    } else if i == 17 {
        1166667
    } else if i == 18 {
        1389180
    } else if i == 19 {
        1654132
    } else if i == 20 {
        1969616
    } else if i == 21 {
        2345272
    } else if i == 22 {
        2792574
    } else if i == 23 {
        3325188
    } else if i == 24 {
        3959385
    } else if i == 25 {
        4714539
    } else if i == 26 {
        5613721
    } else if i == 27 {
        6684399
    } else if i == 28 {
        7959281
    } else if i == 29 {
        9477317
    } else if i == 30 {
        11284879
    } else if i == 31 {
        13437190
    } else {
        16000000
    }
}

/// Powers of 3 and of 800 up to the 32nd, one step at a time.
proof fn lemma_small_powers()
    ensures
        pow_nat(3, 0) == 1,
        pow_nat(3, 1) == 3,
        pow_nat(3, 2) == 9,
        pow_nat(3, 3) == 27,
        pow_nat(3, 4) == 81,
        pow_nat(3, 5) == 243,
        pow_nat(3, 6) == 729,
        pow_nat(3, 7) == 2187,
        pow_nat(3, 8) == 6561,
        pow_nat(3, 9) == 19683,
        pow_nat(3, 10) == 59049,
        pow_nat(3, 11) == 177147,
        pow_nat(3, 12) == 531441,
        pow_nat(3, 13) == 1594323,
        pow_nat(3, 14) == 4782969,
        pow_nat(3, 15) == 14348907,
        pow_nat(3, 16) == 43046721,
        pow_nat(3, 17) == 129140163,
        pow_nat(3, 18) == 387420489,
        pow_nat(3, 19) == 1162261467,
        pow_nat(3, 20) == 3486784401,
        pow_nat(3, 21) == 10460353203,
        pow_nat(3, 22) == 31381059609,
        pow_nat(3, 23) == 94143178827,
        pow_nat(3, 24) == 282429536481,
        pow_nat(3, 25) == 847288609443,
        pow_nat(3, 26) == 2541865828329,
        pow_nat(3, 27) == 7625597484987,
        pow_nat(3, 28) == 22876792454961,
        pow_nat(3, 29) == 68630377364883,
        pow_nat(3, 30) == 205891132094649,
        pow_nat(3, 31) == 617673396283947,
        pow_nat(3, 32) == 1853020188851841,
        pow_nat(800, 0) == 1,
        pow_nat(800, 1) == 800,
        pow_nat(800, 2) == 640000,
        pow_nat(800, 3) == 512000000,
        pow_nat(800, 4) == 409600000000,
        pow_nat(800, 5) == 327680000000000,
        pow_nat(800, 6) == 262144000000000000,
        pow_nat(800, 7) == 209715200000000000000,
        pow_nat(800, 8) == 167772160000000000000000,
        pow_nat(800, 9) == 134217728000000000000000000,
        pow_nat(800, 10) == 107374182400000000000000000000,
        pow_nat(800, 11) == 85899345920000000000000000000000,
        pow_nat(800, 12) == 68719476736000000000000000000000000,
        pow_nat(800, 13) == 54975581388800000000000000000000000000,
        pow_nat(800, 14) == 43980465111040000000000000000000000000000,
        pow_nat(800, 15) == 35184372088832000000000000000000000000000000,
        pow_nat(800, 16) == 28147497671065600000000000000000000000000000000,
        pow_nat(800, 17) == 22517998136852480000000000000000000000000000000000,
        pow_nat(800, 18) == 18014398509481984000000000000000000000000000000000000,
        pow_nat(800, 19) == 14411518807585587200000000000000000000000000000000000000,
        pow_nat(800, 20) == 11529215046068469760000000000000000000000000000000000000000,
        pow_nat(800, 21) == 9223372036854775808000000000000000000000000000000000000000000,
        pow_nat(800, 22) == 7378697629483820646400000000000000000000000000000000000000000000,
        pow_nat(800, 23) == 5902958103587056517120000000000000000000000000000000000000000000000,
        pow_nat(800, 24) == 4722366482869645213696000000000000000000000000000000000000000000000000,
        pow_nat(800, 25) == 3777893186295716170956800000000000000000000000000000000000000000000000000,
        pow_nat(800, 26) == 3022314549036572936765440000000000000000000000000000000000000000000000000000,
        pow_nat(800, 27) == 2417851639229258349412352000000000000000000000000000000000000000000000000000000,
        pow_nat(800, 28) == 1934281311383406679529881600000000000000000000000000000000000000000000000000000000,
        pow_nat(800, 29) == 1547425049106725343623905280000000000000000000000000000000000000000000000000000000000,
        pow_nat(800, 30) == 1237940039285380274899124224000000000000000000000000000000000000000000000000000000000000,
        pow_nat(800, 31) == 990352031428304219919299379200000000000000000000000000000000000000000000000000000000000000,
        pow_nat(800, 32) == 792281625142643375935439503360000000000000000000000000000000000000000000000000000000000000000,
{
    assert(pow_nat(3, 0) == 1);
    assert(pow_nat(3, 1) == 3);
    assert(pow_nat(3, 2) == 9);
    assert(pow_nat(3, 3) == 27);
    assert(pow_nat(3, 4) == 81);
    assert(pow_nat(3, 5) == 243);
    assert(pow_nat(3, 6) == 729);
    assert(pow_nat(3, 7) == 2187);
    assert(pow_nat(3, 8) == 6561);
    assert(pow_nat(3, 9) == 19683);
    assert(pow_nat(3, 10) == 59049);
    assert(pow_nat(3, 11) == 177147);
    assert(pow_nat(3, 12) == 531441);
    assert(pow_nat(3, 13) == 1594323);
    assert(pow_nat(3, 14) == 4782969);
    assert(pow_nat(3, 15) == 14348907);
    assert(pow_nat(3, 16) == 43046721);
    assert(pow_nat(3, 17) == 129140163);
    assert(pow_nat(3, 18) == 387420489);
    assert(pow_nat(3, 19) == 1162261467);
    assert(pow_nat(3, 20) == 3486784401);
    assert(pow_nat(3, 21) == 10460353203);
    assert(pow_nat(3, 22) == 31381059609);
    assert(pow_nat(3, 23) == 94143178827);
    assert(pow_nat(3, 24) == 282429536481);
    assert(pow_nat(3, 25) == 847288609443);
    assert(pow_nat(3, 26) == 2541865828329);
    assert(pow_nat(3, 27) == 7625597484987);
    assert(pow_nat(3, 28) == 22876792454961);
    assert(pow_nat(3, 29) == 68630377364883);
    assert(pow_nat(3, 30) == 205891132094649);
    assert(pow_nat(3, 31) == 617673396283947);
    assert(pow_nat(3, 32) == 1853020188851841);
    assert(pow_nat(800, 0) == 1);
    assert(pow_nat(800, 1) == 800);
    assert(pow_nat(800, 2) == 640000);
    assert(pow_nat(800, 3) == 512000000);
    assert(pow_nat(800, 4) == 409600000000);
    assert(pow_nat(800, 5) == 327680000000000);
    assert(pow_nat(800, 6) == 262144000000000000);
    assert(pow_nat(800, 7) == 209715200000000000000);
    assert(pow_nat(800, 8) == 167772160000000000000000);
    assert(pow_nat(800, 9) == 134217728000000000000000000);
    assert(pow_nat(800, 10) == 107374182400000000000000000000);
    assert(pow_nat(800, 11) == 85899345920000000000000000000000);
    assert(pow_nat(800, 12) == 68719476736000000000000000000000000);
    assert(pow_nat(800, 13) == 54975581388800000000000000000000000000);
    assert(pow_nat(800, 14) == 43980465111040000000000000000000000000000);
    assert(pow_nat(800, 15) == 35184372088832000000000000000000000000000000);
    assert(pow_nat(800, 16) == 28147497671065600000000000000000000000000000000);
    assert(pow_nat(800, 17) == 22517998136852480000000000000000000000000000000000);
    assert(pow_nat(800, 18) == 18014398509481984000000000000000000000000000000000000);
    assert(pow_nat(800, 19) == 14411518807585587200000000000000000000000000000000000000);
    assert(pow_nat(800, 20) == 11529215046068469760000000000000000000000000000000000000000);
    assert(pow_nat(800, 21) == 9223372036854775808000000000000000000000000000000000000000000);
    assert(pow_nat(800, 22) == 7378697629483820646400000000000000000000000000000000000000000000);
    assert(pow_nat(800, 23) == 5902958103587056517120000000000000000000000000000000000000000000000);
    assert(pow_nat(800, 24) == 4722366482869645213696000000000000000000000000000000000000000000000000);
    assert(pow_nat(800, 25) == 3777893186295716170956800000000000000000000000000000000000000000000000000);
    assert(pow_nat(800, 26) == 3022314549036572936765440000000000000000000000000000000000000000000000000000);
    assert(pow_nat(800, 27) == 2417851639229258349412352000000000000000000000000000000000000000000000000000000);
    assert(pow_nat(800, 28) == 1934281311383406679529881600000000000000000000000000000000000000000000000000000000);
    assert(pow_nat(800, 29) == 1547425049106725343623905280000000000000000000000000000000000000000000000000000000000);
    assert(pow_nat(800, 30) == 1237940039285380274899124224000000000000000000000000000000000000000000000000000000000000);
    assert(pow_nat(800, 31) == 990352031428304219919299379200000000000000000000000000000000000000000000000000000000000000);
    assert(pow_nat(800, 32) == 792281625142643375935439503360000000000000000000000000000000000000000000000000000000000000000);
}

/// `60000^32`, by five squarings.
proof fn lemma_pow32_start()
    ensures
        pow32(60000) == 795866110994640088439193600000000000000000000000000000000000000000000000000000000000000000000000000000000000000000000000000000000000000000000000000000000,
{
    assert(60000nat * 60000nat == 3600000000nat);
    assert(3600000000nat * 3600000000nat == 12960000000000000000nat);
    assert(12960000000000000000nat * 12960000000000000000nat == 167961600000000000000000000000000000000nat);
    assert(167961600000000000000000000000000000000nat * 167961600000000000000000000000000000000nat == 28211099074560000000000000000000000000000000000000000000000000000000000000000nat);
    assert(28211099074560000000000000000000000000000000000000000000000000000000000000000nat * 28211099074560000000000000000000000000000000000000000000000000000000000000000nat == 795866110994640088439193600000000000000000000000000000000000000000000000000000000000000000000000000000000000000000000000000000000000000000000000000000000nat);
}

#[verifier::spinoff_prover]
proof fn lemma_edge_0()
    ensures
        is_edge(0, 60000),
{
    lemma_small_powers();
    lemma_pow32_start();
    assert(60000nat * 60000nat == 3600000000nat);
    assert(3600000000nat * 3600000000nat == 12960000000000000000nat);
    assert(12960000000000000000nat * 12960000000000000000nat == 167961600000000000000000000000000000000nat);
    assert(167961600000000000000000000000000000000nat * 167961600000000000000000000000000000000nat == 28211099074560000000000000000000000000000000000000000000000000000000000000000nat);
    assert(28211099074560000000000000000000000000000000000000000000000000000000000000000nat * 28211099074560000000000000000000000000000000000000000000000000000000000000000nat == 795866110994640088439193600000000000000000000000000000000000000000000000000000000000000000000000000000000000000000000000000000000000000000000000000000000nat);
    assert(60001nat * 60001nat == 3600120001nat);
    assert(3600120001nat * 3600120001nat == 12960864021600240001nat);
    assert(12960864021600240001nat * 12960864021600240001nat == 167983996186411546507212096100800480001nat);
    assert(167983996186411546507212096100800480001nat * 167983996186411546507212096100800480001nat == 28218622974756329000391926116307465083937817052024644580387320960432000960001nat);
    assert(28218622974756329000391926116307465083937817052024644580387320960432000960001nat * 28218622974756329000391926116307465083937817052024644580387320960432000960001nat == 796290682591445730489296156176322710706016068902926240655287244989674005317415648144412970836670492432200336988644719564931610542443642671361785601920001nat);
    assert(795866110994640088439193600000000000000000000000000000000000000000000000000000000000000000000000000000000000000000000000000000000000000000000000000000000nat * 1nat <= 795866110994640088439193600000000000000000000000000000000000000000000000000000000000000000000000000000000000000000000000000000000000000000000000000000000nat * 1nat);
    assert(795866110994640088439193600000000000000000000000000000000000000000000000000000000000000000000000000000000000000000000000000000000000000000000000000000000nat * 1nat < 796290682591445730489296156176322710706016068902926240655287244989674005317415648144412970836670492432200336988644719564931610542443642671361785601920001nat * 1nat);
}

#[verifier::spinoff_prover]
proof fn lemma_edge_1()
    ensures
        is_edge(1, 71443),
{
    lemma_small_powers();
    lemma_pow32_start();
    assert(71443nat * 71443nat == 5104102249nat);
    assert(5104102249nat * 5104102249nat == 26051859768246858001nat);
    assert(26051859768246858001nat * 26051859768246858001nat == 678699397384399233873382546408657716001nat);
    assert(678699397384399233873382546408657716001nat * 678699397384399233873382546408657716001nat == 460632872009946665622016188198204466531498836345903603519997765939153971432001nat);
    assert(460632872009946665622016188198204466531498836345903603519997765939153971432001nat * 460632872009946665622016188198204466531498836345903603519997765939153971432001nat == 212182642776131906304684902557459056007337500142152303867454802022950679490505723907592331399862262829935403165709320863559588952244921012029750438566864001nat);
    assert(71444nat * 71444nat == 5104245136nat);
    assert(5104245136nat * 5104245136nat == 26053318408379658496nat);
    assert(26053318408379658496nat * 26053318408379658496nat == 678775400088414381829324929309584982016nat);
    assert(678775400088414381829324929309584982016nat * 678775400088414381829324929309584982016nat == 460736043765187014791722624158432202237137678278029671747613814817847043424256nat);
    assert(460736043765187014791722624158432202237137678278029671747613814817847043424256nat * 460736043765187014791722624158432202237137678278029671747613814817847043424256nat == 212277702024396324285752669622532453903923836178925983279756728615340977985821272555275049602542465658615365753658766364767309674489082982564879330009153536nat);
    assert(212182642776131906304684902557459056007337500142152303867454802022950679490505723907592331399862262829935403165709320863559588952244921012029750438566864001nat * 3nat <= 795866110994640088439193600000000000000000000000000000000000000000000000000000000000000000000000000000000000000000000000000000000000000000000000000000000nat * 800nat);
    assert(795866110994640088439193600000000000000000000000000000000000000000000000000000000000000000000000000000000000000000000000000000000000000000000000000000000nat * 800nat < 212277702024396324285752669622532453903923836178925983279756728615340977985821272555275049602542465658615365753658766364767309674489082982564879330009153536nat * 3nat);
}

#[verifier::spinoff_prover]
proof fn lemma_edge_2()
    ensures
        is_edge(2, 85069),
{
    lemma_small_powers();
    lemma_pow32_start();
    assert(85069nat * 85069nat == 7236734761nat);
    assert(7236734761nat * 7236734761nat == 52370330001065727121nat);
    assert(52370330001065727121nat * 52370330001065727121nat == 2742651464420524962034575634296434948641nat);
    assert(2742651464420524962034575634296434948641nat * 2742651464420524962034575634296434948641nat == 7522137055288050101722187807737873122340470802360457761949913705563792307746881nat);
    assert(7522137055288050101722187807737873122340470802360457761949913705563792307746881nat * 7522137055288050101722187807737873122340470802360457761949913705563792307746881nat == 56582545878537577712804949309610705024332888595638312731545663047700270989639928223228857197476582805991618853628798457993986465109423632082763773646765228161nat);
    assert(85070nat * 85070nat == 7236904900nat);
    assert(7236904900nat * 7236904900nat == 52372792531644010000nat);
    assert(52372792531644010000nat * 52372792531644010000nat == 2742909397562626590197193368880100000000nat);
    assert(2742909397562626590197193368880100000000nat * 2742909397562626590197193368880100000000nat == 7523551963237371131824448229051547878045530788448283191128176010000000000000000nat);
    assert(7523551963237371131824448229051547878045530788448283191128176010000000000000000nat * 7523551963237371131824448229051547878045530788448283191128176010000000000000000nat == 56603834143532901458651063544368912910957416370224906433212515904996102256012145942077746696731412304924052542561324909539520100000000000000000000000000000000nat);
    assert(56582545878537577712804949309610705024332888595638312731545663047700270989639928223228857197476582805991618853628798457993986465109423632082763773646765228161nat * 9nat <= 795866110994640088439193600000000000000000000000000000000000000000000000000000000000000000000000000000000000000000000000000000000000000000000000000000000nat * 640000nat);
    assert(795866110994640088439193600000000000000000000000000000000000000000000000000000000000000000000000000000000000000000000000000000000000000000000000000000000nat * 640000nat < 56603834143532901458651063544368912910957416370224906433212515904996102256012145942077746696731412304924052542561324909539520100000000000000000000000000000000nat * 9nat);
}

#[verifier::spinoff_prover]
proof fn lemma_edge_3()
    ensures
        is_edge(3, 101294),
{
    lemma_small_powers();
    lemma_pow32_start();
    assert(101294nat * 101294nat == 10260474436nat);
    assert(10260474436nat * 10260474436nat == 105277335651809518096nat);
    assert(105277335651809518096nat * 105277335651809518096nat == 11083317401943763410417956200539751465216nat);
    assert(11083317401943763410417956200539751465216nat * 11083317401943763410417956200539751465216nat == 122839924632229453660115566655439877651566244799531122036103554722602818857926656nat);
    assert(122839924632229453660115566655439877651566244799531122036103554722602818857926656nat * 122839924632229453660115566655439877651566244799531122036103554722602818857926656nat == 15089647083651812476054318153710554197035539969185387678312921879806950445647297099678186266070179843660324173871433462089820035309644527292411261871363075342336nat);
    assert(101295nat * 101295nat == 10260677025nat);
    assert(10260677025nat * 10260677025nat == 105281493011362850625nat);
    assert(105281493011362850625nat * 105281493011362850625nat == 11084192770701644757201080624326062890625nat);
    assert(11084192770701644757201080624326062890625nat * 11084192770701644757201080624326062890625nat == 122859329378074604390245551949991828210287622351297950641376554508642730712890625nat);
    assert(122859329378074604390245551949991828210287622351297950641376554508642730712890625nat * 122859329378074604390245551949991828210287622351297950641376554508642730712890625nat == 15094414815230225557592451800461956323599183682606550876212877168276513110922772203776681241889699642602920559288050391746490215722432389878667891025543212890625nat);
    assert(15089647083651812476054318153710554197035539969185387678312921879806950445647297099678186266070179843660324173871433462089820035309644527292411261871363075342336nat * 27nat <= 795866110994640088439193600000000000000000000000000000000000000000000000000000000000000000000000000000000000000000000000000000000000000000000000000000000nat * 512000000nat);
    assert(795866110994640088439193600000000000000000000000000000000000000000000000000000000000000000000000000000000000000000000000000000000000000000000000000000000nat * 512000000nat < 15094414815230225557592451800461956323599183682606550876212877168276513110922772203776681241889699642602920559288050391746490215722432389878667891025543212890625nat * 27nat);
}

#[verifier::spinoff_prover]
proof fn lemma_edge_4()
    ensures
        is_edge(4, 120613),
{
    lemma_small_powers();
    lemma_pow32_start();
    assert(120613nat * 120613nat == 14547495769nat);
    assert(14547495769nat * 14547495769nat == 211629633149072901361nat);
    assert(211629633149072901361nat * 211629633149072901361nat == 44787101626811175832769990946186435652321nat);
    assert(44787101626811175832769990946186435652321nat * 44787101626811175832769990946186435652321nat == 2005884472130312272794307537411573669723823843939872982256776306023788356792687041nat);
    assert(2005884472130312272794307537411573669723823843939872982256776306023788356792687041nat * 2005884472130312272794307537411573669723823843939872982256776306023788356792687041nat == 4023572515533501513035240367013687418730728346027701733739711638493307671779551823890765499328144480877562214295901757632304784801490782322997271684141936969335681nat);
    assert(120614nat * 120614nat == 14547736996nat);
    assert(14547736996nat * 14547736996nat == 211636651704787104016nat);
    assert(211636651704787104016nat * 211636651704787104016nat == 44790072344813366220594642819260003328256nat);
    assert(44790072344813366220594642819260003328256nat * 44790072344813366220594642819260003328256nat == 2006150580653615118061861393755795744401190942995207488809834662118032197288001536nat);
    assert(2006150580653615118061861393755795744401190942995207488809834662118032197288001536nat * 2006150580653615118061861393755795744401190942995207488809834662118032197288001536nat == 4024640152256837096820356144484617030346466555319939001600560719130520772396352512307771322937371210838626391400595276150626039571026816720715381149854068738359296nat);
    assert(4023572515533501513035240367013687418730728346027701733739711638493307671779551823890765499328144480877562214295901757632304784801490782322997271684141936969335681nat * 81nat <= 795866110994640088439193600000000000000000000000000000000000000000000000000000000000000000000000000000000000000000000000000000000000000000000000000000000nat * 409600000000nat);
    assert(795866110994640088439193600000000000000000000000000000000000000000000000000000000000000000000000000000000000000000000000000000000000000000000000000000000nat * 409600000000nat < 4024640152256837096820356144484617030346466555319939001600560719130520772396352512307771322937371210838626391400595276150626039571026816720715381149854068738359296nat * 81nat);
}

#[verifier::spinoff_prover]
proof fn lemma_edge_5()
    ensures
        is_edge(5, 143617),
{
    lemma_small_powers();
    lemma_pow32_start();
    assert(143617nat * 143617nat == 20625842689nat);
    assert(20625842689nat * 20625842689nat == 425425386631374750721nat);
    assert(425425386631374750721nat * 425425386631374750721nat == 180986759590454690470904482460004890019841nat);
    assert(180986759590454690470904482460004890019841nat * 180986759590454690470904482460004890019841nat == 32756207147053042877991113657108884980501217641861676124704890496890014045373665281nat);
    assert(32756207147053042877991113657108884980501217641861676124704890496890014045373665281nat * 32756207147053042877991113657108884980501217641861676124704890496890014045373665281nat == 1072969106660648846607302745901864311280586281729667339125815919554490869798130920513267718447777639829267645858760983037784975204583845539486535473577369032224808961nat);
    assert(143618nat * 143618nat == 20626129924nat);
    assert(20626129924nat * 20626129924nat == 425437235641728245776nat);
    assert(425437235641728245776nat * 425437235641728245776nat == 180996841470475406420498880146742261842176nat);
    assert(180996841470475406420498880146742261842176nat * 180996841470475406420498880146742261842176nat == 32759856622288405881949937947729530565244511771808436575048780936317742509132414976nat);
    assert(32759856622288405881949937947729530565244511771808436575048780936317742509132414976nat * 32759856622288405881949937947729530565244511771808436575048780936317742509132414976nat == 1073208205912893521567326027851576025048876560562979262837460635463315501317510333695559844712353994575467547348937781109955232211458190203049157886424363293869080576nat);
    assert(1072969106660648846607302745901864311280586281729667339125815919554490869798130920513267718447777639829267645858760983037784975204583845539486535473577369032224808961nat * 243nat <= 795866110994640088439193600000000000000000000000000000000000000000000000000000000000000000000000000000000000000000000000000000000000000000000000000000000nat * 327680000000000nat);
    assert(795866110994640088439193600000000000000000000000000000000000000000000000000000000000000000000000000000000000000000000000000000000000000000000000000000000nat * 327680000000000nat < 1073208205912893521567326027851576025048876560562979262837460635463315501317510333695559844712353994575467547348937781109955232211458190203049157886424363293869080576nat * 243nat);
}

#[verifier::spinoff_prover]
proof fn lemma_edge_6()
    ensures
        is_edge(6, 171009),
{
    lemma_small_powers();
    lemma_pow32_start();
    assert(171009nat * 171009nat == 29244078081nat);
    assert(29244078081nat * 29244078081nat == 855216102807624642561nat);
    assert(855216102807624642561nat * 855216102807624642561nat == 731394582501461602032580997715783012638721nat);
    assert(731394582501461602032580997715783012638721nat * 731394582501461602032580997715783012638721nat == 534938035312487321866803596724038785282887427435798417669295583151837426823268515841nat);
    assert(534938035312487321866803596724038785282887427435798417669295583151837426823268515841nat * 534938035312487321866803596724038785282887427435798417669295583151837426823268515841nat == 286158701623983932941329221852466799424296427037439689073823173560877939679610232549277380965634987684052501074494034851164105389747730129005081988046379707042867937281nat);
    assert(171010nat * 171010nat == 29244420100nat);
    assert(29244420100nat * 29244420100nat == 855236106985284010000nat);
    assert(855236106985284010000nat * 855236106985284010000nat == 731428798691344157003714700361680100000000nat);
    assert(731428798691344157003714700361680100000000nat * 731428798691344157003714700361680100000000nat == 534988087555062856001057393064124603387160046675128466265752494736010000000000000000nat);
    assert(534988087555062856001057393064124603387160046675128466265752494736010000000000000000nat * 534988087555062856001057393064124603387160046675128466265752494736010000000000000000nat == 286212253825823600301619103497216755019637252539096094584308826259356075219890706432520982652787276243624083197135400979733022759590720100000000000000000000000000000000nat);
    assert(286158701623983932941329221852466799424296427037439689073823173560877939679610232549277380965634987684052501074494034851164105389747730129005081988046379707042867937281nat * 729nat <= 795866110994640088439193600000000000000000000000000000000000000000000000000000000000000000000000000000000000000000000000000000000000000000000000000000000nat * 262144000000000000nat);
    assert(795866110994640088439193600000000000000000000000000000000000000000000000000000000000000000000000000000000000000000000000000000000000000000000000000000000nat * 262144000000000000nat < 286212253825823600301619103497216755019637252539096094584308826259356075219890706432520982652787276243624083197135400979733022759590720100000000000000000000000000000000nat * 729nat);
}

#[verifier::spinoff_prover]
proof fn lemma_edge_7()
    ensures
        is_edge(7, 203625),
{
    lemma_small_powers();
    lemma_pow32_start();
    assert(203625nat * 203625nat == 41463140625nat);
    assert(41463140625nat * 41463140625nat == 1719192030488525390625nat);
    assert(1719192030488525390625nat * 1719192030488525390625nat == 2955621237695258816268930494785308837890625nat);
    assert(2955621237695258816268930494785308837890625nat * 2955621237695258816268930494785308837890625nat == 8735696900715253614635248968928427564600422671084064774049693369306623935699462890625nat);
    assert(8735696900715253614635248968928427564600422671084064774049693369306623935699462890625nat * 8735696900715253614635248968928427564600422671084064774049693369306623935699462890625nat == 76312400341166087568677465830441311233944128431317540464383356290352916115138845664758600980166726361014917307955731085777062992249464290495097884559072554111480712890625nat);
    assert(203626nat * 203626nat == 41463547876nat);
    assert(41463547876nat * 41463547876nat == 1719225802465344111376nat);
    assert(1719225802465344111376nat * 1719225802465344111376nat == 2955737359862606410389306989096319092613376nat);
    assert(2955737359862606410389306989096319092613376nat * 2955737359862606410389306989096319092613376nat == 8736383340487570868345210622828317491500802617774573091546648470971592103125414117376nat);
    assert(8736383340487570868345210622828317491500802617774573091546648470971592103125414117376nat * 8736383340487570868345210622828317491500802617774573091546648470971592103125414117376nat == 76324393871948767622798588259795575936106024295843109252885964167503626923373742538315425182394363851773788884629822473446957067305101164047646970550202064293201105125376nat);
    assert(76312400341166087568677465830441311233944128431317540464383356290352916115138845664758600980166726361014917307955731085777062992249464290495097884559072554111480712890625nat * 2187nat <= 795866110994640088439193600000000000000000000000000000000000000000000000000000000000000000000000000000000000000000000000000000000000000000000000000000000nat * 209715200000000000000nat);
    assert(795866110994640088439193600000000000000000000000000000000000000000000000000000000000000000000000000000000000000000000000000000000000000000000000000000000nat * 209715200000000000000nat < 76324393871948767622798588259795575936106024295843109252885964167503626923373742538315425182394363851773788884629822473446957067305101164047646970550202064293201105125376nat * 2187nat);
}

#[verifier::spinoff_prover]
proof fn lemma_edge_8()
    ensures
        is_edge(8, 242461),
{
    lemma_small_powers();
    lemma_pow32_start();
    assert(242461nat * 242461nat == 58787336521nat);
    assert(58787336521nat * 58787336521nat == 3455950935233300383441nat);
    assert(3455950935233300383441nat * 3455950935233300383441nat == 11943596866739923581631994003583717627000481nat);
    assert(11943596866739923581631994003583717627000481nat * 11943596866739923581631994003583717627000481nat == 142649506115199719897866244399721683330947602484476904469245038008301958665357174231361nat);
    assert(142649506115199719897866244399721683330947602484476904469245038008301958665357174231361nat * 142649506115199719897866244399721683330947602484476904469245038008301958665357174231361nat == 20348881594910402282808955899937969244326536040915050876972965975375789096734857478796357032752835168670144423781679329925413763109549501904525547071051910817678321155912321nat);
    assert(242462nat * 242462nat == 58787821444nat);
    assert(58787821444nat * 58787821444nat == 3456007950131626245136nat);
    assert(3456007950131626245136nat * 3456007950131626245136nat == 11943990951373005199254655130808602363658496nat);
    assert(11943990951373005199254655130808602363658496nat * 11943990951373005199254655130808602363658496nat == 142658919846480225850286238532678340865540691703323153717766768931483066612685712982016nat);
    assert(142658919846480225850286238532678340865540691703323153717766768931483066612685712982016nat * 142658919846480225850286238532678340865540691703323153717766768931483066612685712982016nat == 20351567411764469665884154014847675303260269952846627874494841509163992237898891059998511689806067396653743521270865562070894537534018232823622109728315974393289275139424256nat);
    assert(20348881594910402282808955899937969244326536040915050876972965975375789096734857478796357032752835168670144423781679329925413763109549501904525547071051910817678321155912321nat * 6561nat <= 795866110994640088439193600000000000000000000000000000000000000000000000000000000000000000000000000000000000000000000000000000000000000000000000000000000nat * 167772160000000000000000nat);
    assert(795866110994640088439193600000000000000000000000000000000000000000000000000000000000000000000000000000000000000000000000000000000000000000000000000000000nat * 167772160000000000000000nat < 20351567411764469665884154014847675303260269952846627874494841509163992237898891059998511689806067396653743521270865562070894537534018232823622109728315974393289275139424256nat * 6561nat);
}

#[verifier::spinoff_prover]
proof fn lemma_edge_9()
    ensures
        is_edge(9, 288705),
{
    lemma_small_powers();
    lemma_pow32_start();
    assert(288705nat * 288705nat == 83350577025nat);
    assert(83350577025nat * 83350577025nat == 6947318690400457850625nat);
    assert(6947318690400457850625nat * 6947318690400457850625nat == 48265236985987532720568947852627194812890625nat);
    assert(48265236985987532720568947852627194812890625nat * 48265236985987532720568947852627194812890625nat == 2329533101313538891803379325152511132641067384357627886125052699342691906103668212890625nat);
    assert(2329533101313538891803379325152511132641067384357627886125052699342691906103668212890625nat * 2329533101313538891803379325152511132641067384357627886125052699342691906103668212890625nat == 5426724470115474654911966079876924320483447880534540109249052577218004645640418818446540083984655395033809220209366019429720510077818646091423847038701199926435947418212890625nat);
    assert(288706nat * 288706nat == 83351154436nat);
    assert(83351154436nat * 83351154436nat == 6947414945813922478096nat);
    assert(6947414945813922478096nat * 6947414945813922478096nat == 48266574429318667402453640889789933599785216nat);
    assert(48266574429318667402453640889789933599785216nat * 48266574429318667402453640889789933599785216nat == 2329662207140958643838351059371553783269788495944564855763996730282663677803361332166656nat);
    assert(2329662207140958643838351059371553783269788495944564855763996730282663677803361332166656nat * 2329662207140958643838351059371553783269788495944564855763996730282663677803361332166656nat == 5427325999380882899620229099705391144579076094702708498135711868634534675531204022374737981533350662828035173897284421570969004449630557266620463934840153528808196319358222336nat);
    assert(5426724470115474654911966079876924320483447880534540109249052577218004645640418818446540083984655395033809220209366019429720510077818646091423847038701199926435947418212890625nat * 19683nat <= 795866110994640088439193600000000000000000000000000000000000000000000000000000000000000000000000000000000000000000000000000000000000000000000000000000000nat * 134217728000000000000000000nat);
    assert(795866110994640088439193600000000000000000000000000000000000000000000000000000000000000000000000000000000000000000000000000000000000000000000000000000000nat * 134217728000000000000000000nat < 5427325999380882899620229099705391144579076094702708498135711868634534675531204022374737981533350662828035173897284421570969004449630557266620463934840153528808196319358222336nat * 19683nat);
}

#[verifier::spinoff_prover]
proof fn lemma_edge_10()
    ensures
        is_edge(10, 343768),
{
    lemma_small_powers();
    lemma_pow32_start();
    assert(343768nat * 343768nat == 118176437824nat);
    assert(118176437824nat * 118176437824nat == 13965670456769737854976nat);
    assert(13965670456769737854976nat * 13965670456769737854976nat == 195039951307091058376798767943495053607960576nat);
    assert(195039951307091058376798767943495053607960576nat * 195039951307091058376798767943495053607960576nat == 38040582605872451051002860608101720792584079890150048642598625025507985119677117970251776nat);
    assert(38040582605872451051002860608101720792584079890150048642598625025507985119677117970251776nat * 38040582605872451051002860608101720792584079890150048642598625025507985119677117970251776nat == 1447085924994205678574747944943984080187971223962220281109777395095242805716765755751173503592862923984439578627595526963308499091780165129329597195438062528280573008092831154176nat);
    assert(343769nat * 343769nat == 118177125361nat);
    assert(118177125361nat * 118177125361nat == 13965832958589509380321nat);
    assert(13965832958589509380321nat * 13965832958589509380321nat == 195044490227225008829821878148522449422063041nat);
    assert(195044490227225008829821878148522449422063041nat * 195044490227225008829821878148522449422063041nat == 38042353167998071976547414666354041292504588129545159566670308616351270141552028578167681nat);
    assert(38042353167998071976547414666354041292504588129545159566670308616351270141552028578167681nat * 38042353167998071976547414666354041292504588129545159566670308616351270141552028578167681nat == 1447220634558692943125801127786841085266099763417796617496222248117723512473481517510252658934804897097294441219490067569581304001279797547166926328361709204139873492003352917761nat);
    assert(1447085924994205678574747944943984080187971223962220281109777395095242805716765755751173503592862923984439578627595526963308499091780165129329597195438062528280573008092831154176nat * 59049nat <= 795866110994640088439193600000000000000000000000000000000000000000000000000000000000000000000000000000000000000000000000000000000000000000000000000000000nat * 107374182400000000000000000000nat);
    assert(795866110994640088439193600000000000000000000000000000000000000000000000000000000000000000000000000000000000000000000000000000000000000000000000000000000nat * 107374182400000000000000000000nat < 1447220634558692943125801127786841085266099763417796617496222248117723512473481517510252658934804897097294441219490067569581304001279797547166926328361709204139873492003352917761nat * 59049nat);
}

#[verifier::spinoff_prover]
proof fn lemma_edge_11()
    ensures
        is_edge(11, 409334),
{
    lemma_small_powers();
    lemma_pow32_start();
    assert(409334nat * 409334nat == 167554323556nat);
    assert(167554323556nat * 167554323556nat == 28074451342308736485136nat);
    assert(28074451342308736485136nat * 28074451342308736485136nat == 788174818171660815822996794722278131548938496nat);
    assert(788174818171660815822996794722278131548938496nat * 788174818171660815822996794722278131548938496nat == 621219543999930588567511473478646680484080963915867055020327451936189351150995424390742016nat);
    assert(621219543999930588567511473478646680484080963915867055020327451936189351150995424390742016nat * 621219543999930588567511473478646680484080963915867055020327451936189351150995424390742016nat == 385913721847481696523122186356292929284144024208923945118231731021653803328076580242438438122230972103248374678293343509406094291068742306941604119238726921883520913748891067744256nat);
    assert(409335nat * 409335nat == 167555142225nat);
    assert(167555142225nat * 167555142225nat == 28074725686039977950625nat);
    assert(28074725686039977950625nat * 28074725686039977950625nat == 788190222346392910590572252744036174937890625nat);
    assert(788190222346392910590572252744036174937890625nat * 788190222346392910590572252744036174937890625nat == 621243826602456294315206638502132146535953633136113249069599382688082381390576324462890625nat);
    assert(621243826602456294315206638502132146535953633136113249069599382688082381390576324462890625nat * 621243826602456294315206638502132146535953633136113249069599382688082381390576324462890625nat == 385943892091662782919275630727337850394916676372603690127393767008548230220928318655681544393468653332011340730749147000427612804227884993805124617046020016097463667392730712890625nat);
    assert(385913721847481696523122186356292929284144024208923945118231731021653803328076580242438438122230972103248374678293343509406094291068742306941604119238726921883520913748891067744256nat * 177147nat <= 795866110994640088439193600000000000000000000000000000000000000000000000000000000000000000000000000000000000000000000000000000000000000000000000000000000nat * 85899345920000000000000000000000nat);
    assert(795866110994640088439193600000000000000000000000000000000000000000000000000000000000000000000000000000000000000000000000000000000000000000000000000000000nat * 85899345920000000000000000000000nat < 385943892091662782919275630727337850394916676372603690127393767008548230220928318655681544393468653332011340730749147000427612804227884993805124617046020016097463667392730712890625nat * 177147nat);
}

#[verifier::spinoff_prover]
proof fn lemma_edge_12()
    ensures
        is_edge(12, 487404),
{
    lemma_small_powers();
    lemma_pow32_start();
    assert(487404nat * 487404nat == 237562659216nat);
    assert(237562659216nat * 237562659216nat == 56436017053777349734656nat);
    assert(56436017053777349734656nat * 56436017053777349734656nat == 3185024020894247850571986354787505753607438336nat);
    assert(3185024020894247850571986354787505753607438336nat * 3185024020894247850571986354787505753607438336nat == 10144378013673362168609973776473513278579082345772922798091202514141753265754475348042448896nat);
    assert(10144378013673362168609973776473513278579082345772922798091202514141753265754475348042448896nat * 10144378013673362168609973776473513278579082345772922798091202514141753265754475348042448896nat == 102908405284299508925519450111244096313633146260017560284272288539541289921389795809343252781491906513564818205131338773534057146967799592273713565526739118011065275165433524771618816nat);
    assert(487405nat * 487405nat == 237563634025nat);
    assert(237563634025nat * 237563634025nat == 56436480211164137700625nat);
    assert(56436480211164137700625nat * 56436480211164137700625nat == 3185076298625121312707430650848516462125390625nat);
    assert(3185076298625121312707430650848516462125390625nat * 3185076298625121312707430650848516462125390625nat == 10144711028063502957348943804593708041672127941232613097419111129193101963001660308837890625nat);
    assert(10144711028063502957348943804593708041672127941232613097419111129193101963001660308837890625nat * 10144711028063502957348943804593708041672127941232613097419111129193101963001660308837890625nat == 102915161842913255087460920342820195835485862838544902604196391261534619835393730735645118979930493751677915553726004560918010552779195198395199872436099863559030927717685699462890625nat);
    assert(102908405284299508925519450111244096313633146260017560284272288539541289921389795809343252781491906513564818205131338773534057146967799592273713565526739118011065275165433524771618816nat * 531441nat <= 795866110994640088439193600000000000000000000000000000000000000000000000000000000000000000000000000000000000000000000000000000000000000000000000000000000nat * 68719476736000000000000000000000000nat);
    assert(795866110994640088439193600000000000000000000000000000000000000000000000000000000000000000000000000000000000000000000000000000000000000000000000000000000nat * 68719476736000000000000000000000000nat < 102915161842913255087460920342820195835485862838544902604196391261534619835393730735645118979930493751677915553726004560918010552779195198395199872436099863559030927717685699462890625nat * 531441nat);
}

#[verifier::spinoff_prover]
proof fn lemma_edge_13()
    ensures
        is_edge(13, 580364),
{
    lemma_small_powers();
    lemma_pow32_start();
    assert(580364nat * 580364nat == 336822372496nat);
    assert(336822372496nat * 336822372496nat == 113449310613834177270016nat);
    assert(113449310613834177270016nat * 113449310613834177270016nat == 12870746078754228108194394962677427346572640256nat);
    assert(12870746078754228108194394962677427346572640256nat * 12870746078754228108194394962677427346572640256nat == 165656104623767339015489597294117404753907155319374075796743437571494028597997598014791745536nat);
    assert(165656104623767339015489597294117404753907155319374075796743437571494028597997598014791745536nat * 165656104623767339015489597294117404753907155319374075796743437571494028597997598014791745536nat == 27441944999120550756592097903009593553153031714055931710582612123760431093156840041882646996123861638149938823093006027943664580346540099658759160361498170499778617729240792001775927296nat);
    assert(580365nat * 580365nat == 336823533225nat);
    assert(336823533225nat * 336823533225nat == 113450092534172678900625nat);
    assert(113450092534172678900625nat * 113450092534172678900625nat == 12870923496012343415665181098870221058625390625nat);
    assert(12870923496012343415665181098870221058625390625nat * 12870923496012343415665181098870221058625390625nat == 165660671640202604333411900108997937994500555548612149855358572854107908047092675933837890625nat);
    assert(165660671640202604333411900108997937994500555548612149855358572854107908047092675933837890625nat * 165660671640202604333411900108997937994500555548612149855358572854107908047092675933837890625nat == 27443458128283027429500420778166292511470935287823729628456592136194991978878798240641991506173194181147215394956590824623170407267686402250013309146549472312599443830549716949462890625nat);
    assert(27441944999120550756592097903009593553153031714055931710582612123760431093156840041882646996123861638149938823093006027943664580346540099658759160361498170499778617729240792001775927296nat * 1594323nat <= 795866110994640088439193600000000000000000000000000000000000000000000000000000000000000000000000000000000000000000000000000000000000000000000000000000000nat * 54975581388800000000000000000000000000nat);
    assert(795866110994640088439193600000000000000000000000000000000000000000000000000000000000000000000000000000000000000000000000000000000000000000000000000000000nat * 54975581388800000000000000000000000000nat < 27443458128283027429500420778166292511470935287823729628456592136194991978878798240641991506173194181147215394956590824623170407267686402250013309146549472312599443830549716949462890625nat * 1594323nat);
}

#[verifier::spinoff_prover]
proof fn lemma_edge_14()
    ensures
        is_edge(14, 691054),
{
    lemma_small_powers();
    lemma_pow32_start();
    assert(691054nat * 691054nat == 477555630916nat);
    assert(477555630916nat * 477555630916nat == 228059380619578814999056nat);
    assert(228059380619578814999056nat * 228059380619578814999056nat == 52011081088585921203516731886194460197280891136nat);
    assert(52011081088585921203516731886194460197280891136nat * 52011081088585921203516731886194460197280891136nat == 2705152556003460054198917889451961009660371858238455830627657901881258448092363127414283370496nat);
    assert(2705152556003460054198917889451961009660371858238455830627657901881258448092363127414283370496nat * 2705152556003460054198917889451961009660371858238455830627657901881258448092363127414283370496nat == 7317850351252053084920214494145254978307899206191118293118362827481364628237167008537424267527975103518750960885011871455844260884785834769091975493055557328775044713850913053526003286016nat);
    assert(691055nat * 691055nat == 477557013025nat);
    assert(477557013025nat * 477557013025nat == 228060700689360019650625nat);
    assert(228060700689360019650625nat * 228060700689360019650625nat == 52011683198921857742287822567710086147062890625nat);
    assert(52011683198921857742287822567710086147062890625nat * 52011683198921857742287822567710086147062890625nat == 2705215189185010252895845331946959811469461576822045417191892721216506089882181298980712890625nat);
    assert(2705215189185010252895845331946959811469461576822045417191892721216506089882181298980712890625nat * 2705215189185010252895845331946959811469461576822045417191892721216506089882181298980712890625nat == 7318189219797290813543372847631909894755127964020608991930875487665236696200350058022549740813588554380143734976431369063802818251059420971725244894364794283504977845586836338043212890625nat);
    assert(7317850351252053084920214494145254978307899206191118293118362827481364628237167008537424267527975103518750960885011871455844260884785834769091975493055557328775044713850913053526003286016nat * 4782969nat <= 795866110994640088439193600000000000000000000000000000000000000000000000000000000000000000000000000000000000000000000000000000000000000000000000000000000nat * 43980465111040000000000000000000000000000nat);
    assert(795866110994640088439193600000000000000000000000000000000000000000000000000000000000000000000000000000000000000000000000000000000000000000000000000000000nat * 43980465111040000000000000000000000000000nat < 7318189219797290813543372847631909894755127964020608991930875487665236696200350058022549740813588554380143734976431369063802818251059420971725244894364794283504977845586836338043212890625nat * 4782969nat);
}

#[verifier::spinoff_prover]
proof fn lemma_edge_15()
    ensures
        is_edge(15, 822856),
{
    lemma_small_powers();
    lemma_pow32_start();
    assert(822856nat * 822856nat == 677091996736nat);
    assert(677091996736nat * 677091996736nat == 458453572043943434653696nat);
    assert(458453572043943434653696nat * 458453572043943434653696nat == 210179677719851233167802053853387650491446460416nat);
    assert(210179677719851233167802053853387650491446460416nat * 210179677719851233167802053853387650491446460416nat == 44175496926420528868706442850888563232906748769953121474779417862087248247976148255415054893056nat);
    assert(44175496926420528868706442850888563232906748769953121474779417862087248247976148255415054893056nat * 44175496926420528868706442850888563232906748769953121474779417862087248247976148255415054893056nat == 1951474528696189592969848292041060323576938186745969749352132337152553460193207590898445182455313858181607468328471481134751249264572603356285065641951701342749672190007922598809727597019136nat);
    assert(822857nat * 822857nat == 677093642449nat);
    assert(677093642449nat * 677093642449nat == 458455800644854254717601nat);
    assert(458455800644854254717601nat * 458455800644854254717601nat == 210181721144914346875760090898992631564259195201nat);
    assert(210181721144914346875760090898992631564259195201nat * 210181721144914346875760090898992631564259195201nat == 44176355903438534668876626106961535355001714810161235000371205843942534417767567030880221430401nat);
    assert(44176355903438534668876626106961535355001714810161235000371205843942534417767567030880221430401nat * 44176355903438534668876626106961535355001714810161235000371205843942534417767567030880221430401nat == 1951550420907268672625388496853794995650067901380736011893244445378899906568566775871310022593306055000756712502207583503645510636276295806471656303704718218448104021359284324597182487020801nat);
    assert(1951474528696189592969848292041060323576938186745969749352132337152553460193207590898445182455313858181607468328471481134751249264572603356285065641951701342749672190007922598809727597019136nat * 14348907nat <= 795866110994640088439193600000000000000000000000000000000000000000000000000000000000000000000000000000000000000000000000000000000000000000000000000000000nat * 35184372088832000000000000000000000000000000nat);
    assert(795866110994640088439193600000000000000000000000000000000000000000000000000000000000000000000000000000000000000000000000000000000000000000000000000000000nat * 35184372088832000000000000000000000000000000nat < 1951550420907268672625388496853794995650067901380736011893244445378899906568566775871310022593306055000756712502207583503645510636276295806471656303704718218448104021359284324597182487020801nat * 14348907nat);
}

#[verifier::spinoff_prover]
proof fn lemma_edge_16()
    ensures
        is_edge(16, 979795),
{
    lemma_small_powers();
    lemma_pow32_start();
    assert(979795nat * 979795nat == 959998242025nat);
    assert(959998242025nat * 959998242025nat == 921596624691090476100625nat);
    assert(921596624691090476100625nat * 921596624691090476100625nat == 849340338642010675783383414736988534305125390625nat);
    assert(849340338642010675783383414736988534305125390625nat * 849340338642010675783383414736988534305125390625nat == 721379010844525373151112276332452701029567076049612063198352435859009172238893691504058837890625nat);
    assert(721379010844525373151112276332452701029567076049612063198352435859009172238893691504058837890625nat * 721379010844525373151112276332452701029567076049612063198352435859009172238893691504058837890625nat == 520387677287025855920483014495127752772992454840608504667181462712796045421325667412503888403174071515636676192148844882151009079156130589760043303421694635602449408799433149397373199462890625nat);
    assert(979796nat * 979796nat == 960000201616nat);
    assert(960000201616nat * 960000201616nat == 921600387102760649011456nat);
    assert(921600387102760649011456nat * 921600387102760649011456nat == 849347273507958276805217785052199652990019239936nat);
    assert(849347273507958276805217785052199652990019239936nat * 849347273507958276805217785052199652990019239936nat == 721390791015402483662603366785298128284921768159935828624950463421577348096065499987455137284096nat);
    assert(721390791015402483662603366785298128284921768159935828624950463421577348096065499987455137284096nat * 721390791015402483662603366785298128284921768159935828624950463421577348096065499987455137284096nat == 520404673361828100745697276271995451492908235228922420069684711596681584186650296824774069518980741259784394488424587719519782524990021010911475905064035851145971496504022156560878283014537216nat);
    assert(520387677287025855920483014495127752772992454840608504667181462712796045421325667412503888403174071515636676192148844882151009079156130589760043303421694635602449408799433149397373199462890625nat * 43046721nat <= 795866110994640088439193600000000000000000000000000000000000000000000000000000000000000000000000000000000000000000000000000000000000000000000000000000000nat * 28147497671065600000000000000000000000000000000nat);
    assert(795866110994640088439193600000000000000000000000000000000000000000000000000000000000000000000000000000000000000000000000000000000000000000000000000000000nat * 28147497671065600000000000000000000000000000000nat < 520404673361828100745697276271995451492908235228922420069684711596681584186650296824774069518980741259784394488424587719519782524990021010911475905064035851145971496504022156560878283014537216nat * 43046721nat);
}

#[verifier::spinoff_prover]
proof fn lemma_edge_17()
    ensures
        is_edge(17, 1166667),
{
    lemma_small_powers();
    lemma_pow32_start();
    assert(1166667nat * 1166667nat == 1361111888889nat);
    assert(1361111888889nat * 1361111888889nat == 1852625574074981481654321nat);
    assert(1852625574074981481654321nat * 1852625574074981481654321nat == 3432221517716654696984036047001585276686937971041nat);
    assert(3432221517716654696984036047001585276686937971041nat * 3432221517716654696984036047001585276686937971041nat == 11780144546677216632009041006754209164712866511865299163817323225288946378883843760689925754623681nat);
    assert(11780144546677216632009041006754209164712866511865299163817323225288946378883843760689925754623681nat * 11780144546677216632009041006754209164712866511865299163817323225288946378883843760689925754623681nat == 138771805540608965744502209243481561372759011496055987530799692833157816004647998471099418274935813024989764945128136664660923372582469476546533575636862681667819502605696747054175684749925989761nat);
    assert(1166668nat * 1166668nat == 1361114222224nat);
    assert(1361114222224nat * 1361114222224nat == 1852631925940444455506176nat);
    assert(1852631925940444455506176nat * 1852631925940444455506176nat == 3432245053013800469804403158429907850164374142976nat);
    assert(3432245053013800469804403158429907850164374142976nat * 3432245053013800469804403158429907850164374142976nat == 11780306103937705997430667689244075175294969283351093004812331230527829805247828382079094490136576nat);
    assert(11780306103937705997430667689244075175294969283351093004812331230527829805247828382079094490136576nat * 11780306103937705997430667689244075175294969283351093004812331230527829805247828382079094490136576nat == 138775611902471973978583686335551215847258320983461503618913533583892405225052536442168648784179687106720244847501802385908058456706352962068215683380310085711628309932941116570028918151133003776nat);
    assert(138771805540608965744502209243481561372759011496055987530799692833157816004647998471099418274935813024989764945128136664660923372582469476546533575636862681667819502605696747054175684749925989761nat * 129140163nat <= 795866110994640088439193600000000000000000000000000000000000000000000000000000000000000000000000000000000000000000000000000000000000000000000000000000000nat * 22517998136852480000000000000000000000000000000000nat);
    assert(795866110994640088439193600000000000000000000000000000000000000000000000000000000000000000000000000000000000000000000000000000000000000000000000000000000nat * 22517998136852480000000000000000000000000000000000nat < 138775611902471973978583686335551215847258320983461503618913533583892405225052536442168648784179687106720244847501802385908058456706352962068215683380310085711628309932941116570028918151133003776nat * 129140163nat);
}

#[verifier::spinoff_prover]
proof fn lemma_edge_18()
    ensures
        is_edge(18, 1389180),
{
    lemma_small_powers();
    lemma_pow32_start();
    assert(1389180nat * 1389180nat == 1929821072400nat);
    assert(1929821072400nat * 1929821072400nat == 3724209371479086041760000nat);
    assert(3724209371479086041760000nat * 3724209371479086041760000nat == 13869735442612649093705302101329264463897600000000nat);
    assert(13869735442612649093705302101329264463897600000000nat * 13869735442612649093705302101329264463897600000000nat == 192369561248065497061322554228265077328261531347945867807205246944900973933783285760000000000000000nat);
    assert(192369561248065497061322554228265077328261531347945867807205246944900973933783285760000000000000000nat * 192369561248065497061322554228265077328261531347945867807205246944900973933783285760000000000000000nat == 37006048094773222599403310504861122222185958724619938636948687728847145718695449197223045823572493826211812666394046956024012140300008166190394363473313724741818777600000000000000000000000000000000nat);
    assert(1389181nat * 1389181nat == 1929823850761nat);
    assert(1929823850761nat * 1929823850761nat == 3724220094966014400279121nat);
    assert(3724220094966014400279121nat * 3724220094966014400279121nat == 13869815315748669318158907095261377810762708532641nat);
    assert(13869815315748669318158907095261377810762708532641nat * 13869815315748669318158907095261377810762708532641nat == 192371776892976359575302540214989366632730218253383147110040078272142494248231760498183387362434881nat);
    assert(192371776892976359575302540214989366632730218253383147110040078272142494248231760498183387362434881nat * 192371776892976359575302540214989366632730218253383147110040078272142494248231760498183387362434881nat == 37006900544961073232437889557297869260744480085184366526240510010345918360489790998256390928520064120877639806965764394670753127776101228139369913625737082711135199531052235950962298402936965484161nat);
    assert(37006048094773222599403310504861122222185958724619938636948687728847145718695449197223045823572493826211812666394046956024012140300008166190394363473313724741818777600000000000000000000000000000000nat * 387420489nat <= 795866110994640088439193600000000000000000000000000000000000000000000000000000000000000000000000000000000000000000000000000000000000000000000000000000000nat * 18014398509481984000000000000000000000000000000000000nat);
    assert(795866110994640088439193600000000000000000000000000000000000000000000000000000000000000000000000000000000000000000000000000000000000000000000000000000000nat * 18014398509481984000000000000000000000000000000000000nat < 37006900544961073232437889557297869260744480085184366526240510010345918360489790998256390928520064120877639806965764394670753127776101228139369913625737082711135199531052235950962298402936965484161nat * 387420489nat);
}

#[verifier::spinoff_prover]
proof fn lemma_edge_19()
    ensures
        is_edge(19, 1654132),
{
    lemma_small_powers();
    lemma_pow32_start();
    assert(1654132nat * 1654132nat == 2736152673424nat);
    assert(2736152673424nat * 2736152673424nat == 7486531452285302395883776nat);
    assert(7486531452285302395883776nat * 7486531452285302395883776nat == 56048153186057079024311086178142526844668100018176nat);
    assert(56048153186057079024311086178142526844668100018176nat * 56048153186057079024311086178142526844668100018176nat == 3141395475567720298392593610476175564629103100033201898070176448408251249453236293467374771530366976nat);
    assert(3141395475567720298392593610476175564629103100033201898070176448408251249453236293467374771530366976nat * 3141395475567720298392593610476175564629103100033201898070176448408251249453236293467374771530366976nat == 9868365533917343578194593020134516555281859433395369995615072400453932101181946068790700247437845619845126276007254371433238194804893045503280794186861973197130681759436155326782665189214121231384576nat);
    assert(1654133nat * 1654133nat == 2736155981689nat);
    assert(2736155981689nat * 2736155981689nat == 7486549556132495303292721nat);
    assert(7486549556132495303292721nat * 7486549556132495303292721nat == 56048424256427662444093966486558382124264611583841nat);
    assert(56048424256427662444093966486558382124264611583841nat * 56048424256427662444093966486558382124264611583841nat == 3141425861628508765746055925503028270238099055512838921688340818300883126437962302606870842572313281nat);
    assert(3141425861628508765746055925503028270238099055512838921688340818300883126437962302606870842572313281nat * 3141425861628508765746055925503028270238099055512838921688340818300883126437962302606870842572313281nat == 9868556444108418702554725354874635486154402048688461467054604285076383064495851236711042285072167419624338845991376193308537737781056573956627750946007772879143024904784883588295173784047695608984961nat);
    assert(9868365533917343578194593020134516555281859433395369995615072400453932101181946068790700247437845619845126276007254371433238194804893045503280794186861973197130681759436155326782665189214121231384576nat * 1162261467nat <= 795866110994640088439193600000000000000000000000000000000000000000000000000000000000000000000000000000000000000000000000000000000000000000000000000000000nat * 14411518807585587200000000000000000000000000000000000000nat);
    assert(795866110994640088439193600000000000000000000000000000000000000000000000000000000000000000000000000000000000000000000000000000000000000000000000000000000nat * 14411518807585587200000000000000000000000000000000000000nat < 9868556444108418702554725354874635486154402048688461467054604285076383064495851236711042285072167419624338845991376193308537737781056573956627750946007772879143024904784883588295173784047695608984961nat * 1162261467nat);
}

#[verifier::spinoff_prover]
proof fn lemma_edge_20()
    ensures
        is_edge(20, 1969616),
{
    lemma_small_powers();
    lemma_pow32_start();
    assert(1969616nat * 1969616nat == 3879387187456nat);
    assert(3879387187456nat * 3879387187456nat == 15049644950197774083751936nat);
    assert(15049644950197774083751936nat * 15049644950197774083751936nat == 226491813127013361981595515938450317795314783748096nat);
    assert(226491813127013361981595515938450317795314783748096nat * 226491813127013361981595515938450317795314783748096nat == 51298541413561942277006076197007830983047061453492950026864059072091158257779883941144705365983625216nat);
    assert(51298541413561942277006076197007830983047061453492950026864059072091158257779883941144705365983625216nat * 51298541413561942277006076197007830983047061453492950026864059072091158257779883941144705365983625216nat == 2631540351158929674906739214012366302411252564978987447110111766080600212213418931407427646815712019705671244734559297791726943239631593394460590071175677188204146097698870616786567429776486245551046656nat);
    assert(1969617nat * 1969617nat == 3879391126689nat);
    assert(3879391126689nat * 3879391126689nat == 15049675513833348848102721nat);
    assert(15049675513833348848102721nat * 15049675513833348848102721nat == 226492733071675072675851023787375877958041367603841nat);
    assert(226492733071675072675851023787375877958041367603841nat * 226492733071675072675851023787375877958041367603841nat == 51298958134277055201791558999990073033224861193158989605765134236050451115236653927352003545917953281nat);
    assert(51298958134277055201791558999990073033224861193158989605765134236050451115236653927352003545917953281nat * 51298958134277055201791558999990073033224861193158989605765134236050451115236653927352003545917953281nat == 2631583105662310048351100973455003087371326873726563461616122074151509498610261427509256400906855869636345660985133475174949828308583848174046409581523816448765412887131440053841181617955400516098664961nat);
    assert(2631540351158929674906739214012366302411252564978987447110111766080600212213418931407427646815712019705671244734559297791726943239631593394460590071175677188204146097698870616786567429776486245551046656nat * 3486784401nat <= 795866110994640088439193600000000000000000000000000000000000000000000000000000000000000000000000000000000000000000000000000000000000000000000000000000000nat * 11529215046068469760000000000000000000000000000000000000000nat);
    assert(795866110994640088439193600000000000000000000000000000000000000000000000000000000000000000000000000000000000000000000000000000000000000000000000000000000nat * 11529215046068469760000000000000000000000000000000000000000nat < 2631583105662310048351100973455003087371326873726563461616122074151509498610261427509256400906855869636345660985133475174949828308583848174046409581523816448765412887131440053841181617955400516098664961nat * 3486784401nat);
}

#[verifier::spinoff_prover]
proof fn lemma_edge_21()
    ensures
        is_edge(21, 2345272),
{
    lemma_small_powers();
    lemma_pow32_start();
    assert(2345272nat * 2345272nat == 5500300753984nat);
    assert(5500300753984nat * 5500300753984nat == 30253308384276958891872256nat);
    assert(30253308384276958891872256nat * 30253308384276958891872256nat == 915262668194162536987081250031375715990617022529536nat);
    assert(915262668194162536987081250031375715990617022529536nat * 915262668194162536987081250031375715990617022529536nat == 837705751789897667294588423642243737518578169347809624842614602619980974327392686561763235003992375296nat);
    assert(837705751789897667294588423642243737518578169347809624842614602619980974327392686561763235003992375296nat * 837705751789897667294588423642243737518578169347809624842614602619980974327392686561763235003992375296nat == 701750926581877638812260992123696197133309084778016683264477684031957176847840987283734635395380763808874394323799672232028964787059457831290382008643639254608462956765737753505734435246024180504111087616nat);
    assert(2345273nat * 2345273nat == 5500305444529nat);
    assert(5500305444529nat * 5500305444529nat == 30253359983115360296031841nat);
    assert(30253359983115360296031841nat * 30253359983115360296031841nat == 915265790267965833416206772404337959990370885849281nat);
    assert(915265790267965833416206772404337959990370885849281nat * 915265790267965833416206772404337959990370885849281nat == 837711466834844020501191468574455442863518148379601182017885012085540214317339013852847576888648216961nat);
    assert(837711466834844020501191468574455442863518148379601182017885012085540214317339013852847576888648216961nat * 837711466834844020501191468574455442863518148379601182017885012085540214317339013852847576888648216961nat == 701760501666585973287738858338993799465751042627301423788148681669885930740618798917271599587887554328874612644093060353731883284956641503972288242572030038222808669044200862065931279517526579964528075521nat);
    assert(701750926581877638812260992123696197133309084778016683264477684031957176847840987283734635395380763808874394323799672232028964787059457831290382008643639254608462956765737753505734435246024180504111087616nat * 10460353203nat <= 795866110994640088439193600000000000000000000000000000000000000000000000000000000000000000000000000000000000000000000000000000000000000000000000000000000nat * 9223372036854775808000000000000000000000000000000000000000000nat);
    assert(795866110994640088439193600000000000000000000000000000000000000000000000000000000000000000000000000000000000000000000000000000000000000000000000000000000nat * 9223372036854775808000000000000000000000000000000000000000000nat < 701760501666585973287738858338993799465751042627301423788148681669885930740618798917271599587887554328874612644093060353731883284956641503972288242572030038222808669044200862065931279517526579964528075521nat * 10460353203nat);
}

#[verifier::spinoff_prover]
proof fn lemma_edge_22()
    ensures
        is_edge(22, 2792574),
{
    lemma_small_powers();
    lemma_pow32_start();
    assert(2792574nat * 2792574nat == 7798469545476nat);
    assert(7798469545476nat * 7798469545476nat == 60816127251716650032066576nat);
    assert(60816127251716650032066576nat * 60816127251716650032066576nat == 3698601333896992576090701820308186176409065296363776nat);
    assert(3698601333896992576090701820308186176409065296363776nat * 3698601333896992576090701820308186176409065296363776nat == 13679651827104612765044943044556601220657969001566938247195175027741659245553292077410335890367724978176nat);
    assert(13679651827104612765044943044556601220657969001566938247195175027741659245553292077410335890367724978176nat * 13679651827104612765044943044556601220657969001566938247195175027741659245553292077410335890367724978176nat == 187132874110806570333960097543769653043487619971433892467766495411322669721110634486801116067759739241555599388082503682819446071155258520048518602425003586250254904134088511043431035629380732854539676286976nat);
    assert(2792575nat * 2792575nat == 7798475130625nat);
    assert(7798475130625nat * 7798475130625nat == 60816214362976610812890625nat);
    assert(60816214362976610812890625nat * 60816214362976610812890625nat == 3698611929443522612134960414400167387353668212890625nat);
    assert(3698611929443522612134960414400167387353668212890625nat * 3698611929443522612134960414400167387353668212890625nat == 13679730204621937089243921800761503491967025607418448690349726931387178511797383450902998447418212890625nat);
    assert(13679730204621937089243921800761503491967025607418448690349726931387178511797383450902998447418212890625nat * 13679730204621937089243921800761503491967025607418448690349726931387178511797383450902998447418212890625nat == 187135018471245744785822646905559620989503575922688546218449031641535962680974285435715515457243520545377522992486729477427479467279664801588726848692111454373205301805749289911773303174413740634918212890625nat);
    assert(187132874110806570333960097543769653043487619971433892467766495411322669721110634486801116067759739241555599388082503682819446071155258520048518602425003586250254904134088511043431035629380732854539676286976nat * 31381059609nat <= 795866110994640088439193600000000000000000000000000000000000000000000000000000000000000000000000000000000000000000000000000000000000000000000000000000000nat * 7378697629483820646400000000000000000000000000000000000000000000nat);
    assert(795866110994640088439193600000000000000000000000000000000000000000000000000000000000000000000000000000000000000000000000000000000000000000000000000000000nat * 7378697629483820646400000000000000000000000000000000000000000000nat < 187135018471245744785822646905559620989503575922688546218449031641535962680974285435715515457243520545377522992486729477427479467279664801588726848692111454373205301805749289911773303174413740634918212890625nat * 31381059609nat);
}

#[verifier::spinoff_prover]
proof fn lemma_edge_23()
    ensures
        is_edge(23, 3325188),
{
    lemma_small_powers();
    lemma_pow32_start();
    assert(3325188nat * 3325188nat == 11056875235344nat);
    assert(11056875235344nat * 11056875235344nat == 122254489969963435386798336nat);
    assert(122254489969963435386798336nat * 122254489969963435386798336nat == 14946160317815890224624161814820318427301272732368896nat);
    assert(14946160317815890224624161814820318427301272732368896nat * 14946160317815890224624161814820318427301272732368896nat == 223387708245854392686277403970745556749069834046136429322752066564603654765995142760162204435623828258816nat);
    assert(223387708245854392686277403970745556749069834046136429322752066564603654765995142760162204435623828258816nat * 223387708245854392686277403970745556749069834046136429322752066564603654765995142760162204435623828258816nat == 49902068195334962628283327053568190210826027202327576894763169062361394344783348944718476670172266334720338097925021513139201438062128949532525596881036401109811873747928051145904341790225727794417402281721856nat);
    assert(3325189nat * 3325189nat == 11056881885721nat);
    assert(11056881885721nat * 11056881885721nat == 122254637034785176903689841nat);
    assert(122254637034785176903689841nat * 122254637034785176903689841nat == 14946196276507067351892779476306431153849360726605281nat);
    assert(14946196276507067351892779476306431153849360726605281nat * 14946196276507067351892779476306431153849360726605281nat == 223388783135873724509339201619476378942980190526143533067654777475477996643280073709337436895554377088961nat);
    assert(223388783135873724509339201619476378942980190526143533067654777475477996643280073709337436895554377088961nat * 223388783135873724509339201619476378942980190526143533067654777475477996643280073709337436895554377088961nat == 49902548430926420938098781779972719244514937689888080522773090872738705433784856432977796560830606172283033991816764064200907266876718889263876539326354222321050166738805524379307236045121611188954872508059521nat);
    assert(49902068195334962628283327053568190210826027202327576894763169062361394344783348944718476670172266334720338097925021513139201438062128949532525596881036401109811873747928051145904341790225727794417402281721856nat * 94143178827nat <= 795866110994640088439193600000000000000000000000000000000000000000000000000000000000000000000000000000000000000000000000000000000000000000000000000000000nat * 5902958103587056517120000000000000000000000000000000000000000000000nat);
    assert(795866110994640088439193600000000000000000000000000000000000000000000000000000000000000000000000000000000000000000000000000000000000000000000000000000000nat * 5902958103587056517120000000000000000000000000000000000000000000000nat < 49902548430926420938098781779972719244514937689888080522773090872738705433784856432977796560830606172283033991816764064200907266876718889263876539326354222321050166738805524379307236045121611188954872508059521nat * 94143178827nat);
}

#[verifier::spinoff_prover]
proof fn lemma_edge_24()
    ensures
        is_edge(24, 3959385),
{
    lemma_small_powers();
    lemma_pow32_start();
    assert(3959385nat * 3959385nat == 15676729578225nat);
    assert(15676729578225nat * 15676729578225nat == 245759850268794586394150625nat);
    assert(245759850268794586394150625nat * 245759850268794586394150625nat == 60397904004140334538327526629615004292387215187890625nat);
    assert(60397904004140334538327526629615004292387215187890625nat * 60397904004140334538327526629615004292387215187890625nat == 3647906808093351055964722917955128985499908653013804901730913888293842035323016827204858172021636962890625nat);
    assert(3647906808093351055964722917955128985499908653013804901730913888293842035323016827204858172021636962890625nat * 3647906808093351055964722917955128985499908653013804901730913888293842035323016827204858172021636962890625nat == 13307224080533820769184117900134009759724769892757188120258595285499342131510568919815741968052446370916351332971161060936439326097114905892403183213934134211975815878867029685489472425028705038130283355712890625nat);
    assert(3959386nat * 3959386nat == 15676737496996nat);
    assert(15676737496996nat * 15676737496996nat == 245760098549720411109024016nat);
    assert(245760098549720411109024016nat * 245760098549720411109024016nat == 60398026039168288515700592102901510780667388064768256nat);
    assert(60398026039168288515700592102901510780667388064768256nat * 60398026039168288515700592102901510780667388064768256nat == 3647921549428050617827726365342043139601103118443699860740352689664710612697937472800594477865582985281536nat);
    assert(3647921549428050617827726365342043139601103118443699860740352689664710612697937472800594477865582985281536nat * 3647921549428050617827726365342043139601103118443699860740352689664710612697937472800594477865582985281536nat == 13307331630781549546856280487036070101745747559659832252374373729068774951151681502105395119374005115826813968096518056413617162709929038652267732459915589612569995665442980816146332786357927762239767609182519296nat);
    assert(13307224080533820769184117900134009759724769892757188120258595285499342131510568919815741968052446370916351332971161060936439326097114905892403183213934134211975815878867029685489472425028705038130283355712890625nat * 282429536481nat <= 795866110994640088439193600000000000000000000000000000000000000000000000000000000000000000000000000000000000000000000000000000000000000000000000000000000nat * 4722366482869645213696000000000000000000000000000000000000000000000000nat);
    assert(795866110994640088439193600000000000000000000000000000000000000000000000000000000000000000000000000000000000000000000000000000000000000000000000000000000nat * 4722366482869645213696000000000000000000000000000000000000000000000000nat < 13307331630781549546856280487036070101745747559659832252374373729068774951151681502105395119374005115826813968096518056413617162709929038652267732459915589612569995665442980816146332786357927762239767609182519296nat * 282429536481nat);
}

#[verifier::spinoff_prover]
proof fn lemma_edge_25()
    ensures
        is_edge(25, 4714539),
{
    lemma_small_powers();
    lemma_pow32_start();
    assert(4714539nat * 4714539nat == 22226877982521nat);
    assert(22226877982521nat * 22226877982521nat == 494034104849876799181515441nat);
    assert(494034104849876799181515441nat * 494034104849876799181515441nat == 244069696754819062710346402300217652965254573321424481nat);
    assert(244069696754819062710346402300217652965254573321424481nat * 244069696754819062710346402300217652965254573321424481nat == 59570016873989334911190182359141501249368238221352181272268328002317811287490913280202453422116922986119361nat);
    assert(59570016873989334911190182359141501249368238221352181272268328002317811287490913280202453422116922986119361nat * 59570016873989334911190182359141501249368238221352181272268328002317811287490913280202453422116922986119361nat == 3548586910367374092835273022858512036454579286552094751026486949493245925459059482545727581268905243627258855370148875431185422644840749687133375013072127446081147405728672311428566961342477254489752285078139048321nat);
    assert(4714540nat * 4714540nat == 22226887411600nat);
    assert(22226887411600nat * 22226887411600nat == 494034524007942547814560000nat);
    assert(494034524007942547814560000nat * 494034524007942547814560000nat == 244070110911754361657889863804666571832147993600000000nat);
    assert(244070110911754361657889863804666571832147993600000000nat * 244070110911754361657889863804666571832147993600000000nat == 59570219040476075516937938855566203596811195603146709378551476034559140441754174452505640960000000000000000nat);
    assert(59570219040476075516937938855566203596811195603146709378551476034559140441754174452505640960000000000000000nat * 59570219040476075516937938855566203596811195603146709378551476034559140441754174452505640960000000000000000nat == 3548610996530298367247375143322239068672717524203275513405657947793623931405118636995714167590670821544916202328116261502750675467406422307094763591996159667536310012089180620429721600000000000000000000000000000000nat);
    assert(3548586910367374092835273022858512036454579286552094751026486949493245925459059482545727581268905243627258855370148875431185422644840749687133375013072127446081147405728672311428566961342477254489752285078139048321nat * 847288609443nat <= 795866110994640088439193600000000000000000000000000000000000000000000000000000000000000000000000000000000000000000000000000000000000000000000000000000000nat * 3777893186295716170956800000000000000000000000000000000000000000000000000nat);
    assert(795866110994640088439193600000000000000000000000000000000000000000000000000000000000000000000000000000000000000000000000000000000000000000000000000000000nat * 3777893186295716170956800000000000000000000000000000000000000000000000000nat < 3548610996530298367247375143322239068672717524203275513405657947793623931405118636995714167590670821544916202328116261502750675467406422307094763591996159667536310012089180620429721600000000000000000000000000000000nat * 847288609443nat);
}

#[verifier::spinoff_prover]
proof fn lemma_edge_26()
    ensures
        is_edge(26, 5613721),
{
    lemma_small_powers();
    lemma_pow32_start();
    assert(5613721nat * 5613721nat == 31513863465841nat);
    assert(31513863465841nat * 31513863465841nat == 993123590543668124573837281nat);
    assert(993123590543668124573837281nat * 993123590543668124573837281nat == 986294466094347379586248030842751032414350913065472961nat);
    assert(986294466094347379586248030842751032414350913065472961nat * 986294466094347379586248030842751032414350913065472961nat == 972776773848333752743937033081996890623658044859725421258824146193562350172859582059882635338613494622107521nat);
    assert(972776773848333752743937033081996890623658044859725421258824146193562350172859582059882635338613494622107521nat * 972776773848333752743937033081996890623658044859725421258824146193562350172859582059882635338613494622107521nat == 946294651738772270562124080758009652919671461609312900296422323100863537612898025661418534166488304764186817182445697951399222071815751959006301630073096287855271838507363729839569801951797961791709045994515684765441nat);
    assert(5613722nat * 5613722nat == 31513874693284nat);
    assert(31513874693284nat * 31513874693284nat == 993124298184005725074704656nat);
    assert(993124298184005725074704656nat * 993124298184005725074704656nat == 986295871643473917119452224954930769781891985628078336nat);
    assert(986295871643473917119452224954930769781891985628078336nat * 986295871643473917119452224954930769781891985628078336nat == 972779546420959976516282568522674429839961007823371937593566616395861003995709191966859827135556316152528896nat);
    assert(972779546420959976516282568522674429839961007823371937593566616395861003995709191966859827135556316152528896nat * 972779546420959976516282568522674429839961007823371937593566616395861003995709191966859827135556316152528896nat == 946300045934968625856567339058991416706646701139101760675955413299931679395016098222025661855298791570118087025425505477193819993972041915371805694173167636021332342029430625032777066924574846966350473879336114978816nat);
    assert(946294651738772270562124080758009652919671461609312900296422323100863537612898025661418534166488304764186817182445697951399222071815751959006301630073096287855271838507363729839569801951797961791709045994515684765441nat * 2541865828329nat <= 795866110994640088439193600000000000000000000000000000000000000000000000000000000000000000000000000000000000000000000000000000000000000000000000000000000nat * 3022314549036572936765440000000000000000000000000000000000000000000000000000nat);
    assert(795866110994640088439193600000000000000000000000000000000000000000000000000000000000000000000000000000000000000000000000000000000000000000000000000000000nat * 3022314549036572936765440000000000000000000000000000000000000000000000000000nat < 946300045934968625856567339058991416706646701139101760675955413299931679395016098222025661855298791570118087025425505477193819993972041915371805694173167636021332342029430625032777066924574846966350473879336114978816nat * 2541865828329nat);
}

#[verifier::spinoff_prover]
proof fn lemma_edge_27()
    ensures
        is_edge(27, 6684399),
{
    lemma_small_powers();
    lemma_pow32_start();
    assert(6684399nat * 6684399nat == 44681189991201nat);
    assert(44681189991201nat * 44681189991201nat == 1996408739029800418457422401nat);
    assert(1996408739029800418457422401nat * 1996408739029800418457422401nat == 3985647853274557752669398026481762159713962488936604801nat);
    assert(3985647853274557752669398026481762159713962488936604801nat * 3985647853274557752669398026481762159713962488936604801nat == 15885388810312090643977964485649815330177427269302569318039943883346616391603012773727602250866638329256249601nat);
    assert(15885388810312090643977964485649815330177427269302569318039943883346616391603012773727602250866638329256249601nat * 15885388810312090643977964485649815330177427269302569318039943883346616391603012773727602250866638329256249601nat == 252345577654788578547203902423896544629405561730380751314073262634553371773265925356182593866622651460100839240244111057181062714246865625944107072681639039915336489542094767479614678315545212234468193100777316012659201nat);
    assert(6684400nat * 6684400nat == 44681203360000nat);
    assert(44681203360000nat * 44681203360000nat == 1996409933697675289600000000nat);
    assert(1996409933697675289600000000nat * 1996409933697675289600000000nat == 3985652623366756245818934003318443868160000000000000000nat);
    assert(3985652623366756245818934003318443868160000000000000000nat * 3985652623366756245818934003318443868160000000000000000nat == 15885426834150306115434244330627291360410773293810446350867552586128703461785600000000000000000000000000000000nat);
    assert(15885426834150306115434244330627291360410773293810446350867552586128703461785600000000000000000000000000000000nat * 15885426834150306115434244330627291360410773293810446350867552586128703461785600000000000000000000000000000000nat == 252346785703142617154889484832855216840594622181768821752480625536370881238201398433436713020548139263400433544943125335333209443335063496198797399540367360000000000000000000000000000000000000000000000000000000000000000nat);
    assert(252345577654788578547203902423896544629405561730380751314073262634553371773265925356182593866622651460100839240244111057181062714246865625944107072681639039915336489542094767479614678315545212234468193100777316012659201nat * 7625597484987nat <= 795866110994640088439193600000000000000000000000000000000000000000000000000000000000000000000000000000000000000000000000000000000000000000000000000000000nat * 2417851639229258349412352000000000000000000000000000000000000000000000000000000nat);
    assert(795866110994640088439193600000000000000000000000000000000000000000000000000000000000000000000000000000000000000000000000000000000000000000000000000000000nat * 2417851639229258349412352000000000000000000000000000000000000000000000000000000nat < 252346785703142617154889484832855216840594622181768821752480625536370881238201398433436713020548139263400433544943125335333209443335063496198797399540367360000000000000000000000000000000000000000000000000000000000000000nat * 7625597484987nat);
}

#[verifier::spinoff_prover]
proof fn lemma_edge_28()
    ensures
        is_edge(28, 7959281),
{
    lemma_small_powers();
    lemma_pow32_start();
    assert(7959281nat * 7959281nat == 63350154036961nat);
    assert(63350154036961nat * 63350154036961nat == 4013242016506686085354115521nat);
    assert(4013242016506686085354115521nat * 4013242016506686085354115521nat == 16106111483054652029588128083881338711071848372213101441nat);
    assert(16106111483054652029588128083881338711071848372213101441nat * 16106111483054652029588128083881338711071848372213101441nat == 259406827104584922651640197828890134875151321966115160023520992474733458238472383477236037469258820328156276481nat);
    assert(259406827104584922651640197828890134875151321966115160023520992474733458238472383477236037469258820328156276481nat * 259406827104584922651640197828890134875151321966115160023520992474733458238472383477236037469258820328156276481nat == 67291901948468014885142826174938920587763126783620103098502944754643860711681433632671970375357247976537752880551814931522270244233324300524879774094678215938642615788541814666749795274370710710345855822166633874513743361nat);
    assert(7959282nat * 7959282nat == 63350169955524nat);
    assert(63350169955524nat * 63350169955524nat == 4013244033393775680138114576nat);
    assert(4013244033393775680138114576nat * 4013244033393775680138114576nat == 16106127671570740886464669162272884738183698996103659776nat);
    assert(16106127671570740886464669162272884738183698996103659776nat * 16106127671570740886464669162272884738183698996103659776nat == 259407348572936735410245099876169872644269054813421221086096833758286646727373021182799289785564315141160370176nat);
    assert(259407348572936735410245099876169872644269054813421221086096833758286646727373021182799289785564315141160370176nat * 259407348572936735410245099876169872644269054813421221086096833758286646727373021182799289785564315141160370176nat == 67292172493641102537355249560293911434199550063987719045612041889042457497630981493581822154519106612415942824439382240461287869265416792082397674093416271631753247253829047905377353054237221499533752837988988225350270976nat);
    assert(67291901948468014885142826174938920587763126783620103098502944754643860711681433632671970375357247976537752880551814931522270244233324300524879774094678215938642615788541814666749795274370710710345855822166633874513743361nat * 22876792454961nat <= 795866110994640088439193600000000000000000000000000000000000000000000000000000000000000000000000000000000000000000000000000000000000000000000000000000000nat * 1934281311383406679529881600000000000000000000000000000000000000000000000000000000nat);
    assert(795866110994640088439193600000000000000000000000000000000000000000000000000000000000000000000000000000000000000000000000000000000000000000000000000000000nat * 1934281311383406679529881600000000000000000000000000000000000000000000000000000000nat < 67292172493641102537355249560293911434199550063987719045612041889042457497630981493581822154519106612415942824439382240461287869265416792082397674093416271631753247253829047905377353054237221499533752837988988225350270976nat * 22876792454961nat);
}

#[verifier::spinoff_prover]
proof fn lemma_edge_29()
    ensures
        is_edge(29, 9477317),
{
    lemma_small_powers();
    lemma_pow32_start();
    assert(9477317nat * 9477317nat == 89819537518489nat);
    assert(89819537518489nat * 89819537518489nat == 8067549320035253108016843121nat);
    assert(8067549320035253108016843121nat * 8067549320035253108016843121nat == 65085352031201274775219581320365302648727623826725020641nat);
    assert(65085352031201274775219581320365302648727623826725020641nat * 65085352031201274775219581320365302648727623826725020641nat == 4236103049025395904161294202655954717807337936366195111230217640720614141894586575089241877597992439861876050881nat);
    assert(4236103049025395904161294202655954717807337936366195111230217640720614141894586575089241877597992439861876050881nat * 4236103049025395904161294202655954717807337936366195111230217640720614141894586575089241877597992439861876050881nat == 17944569041962255735100185271261996996418027815522398861821482293555232890751104043693541228494079489660640563426568276811130743434761110526448156566930678221813673407686099809241620194080882325895332580864904600228100876161nat);
    assert(9477318nat * 9477318nat == 89819556473124nat);
    assert(89819556473124nat * 89819556473124nat == 8067552725028711449734319376nat);
    assert(8067552725028711449734319376nat * 8067552725028711449734319376nat == 65085406971118187894086441963084045548166696593969029376nat);
    assert(65085406971118187894086441963084045548166696593969029376nat * 65085406971118187894086441963084045548166696593969029376nat == 4236110200596080009212337007219703113582208191923965260569721649822129982526139719068308911536931249867550949376nat);
    assert(4236110200596080009212337007219703113582208191923965260569721649822129982526139719068308911536931249867550949376nat * 4236110200596080009212337007219703113582208191923965260569721649822129982526139719068308911536931249867550949376nat == 17944629631594161214436260901624295772228895719143175344235456993582629445417803890645585260167930050030248066530902022465096557545690546435030427676542355193102458084854650087771969118681496950111810463827551011198914789376nat);
    assert(17944569041962255735100185271261996996418027815522398861821482293555232890751104043693541228494079489660640563426568276811130743434761110526448156566930678221813673407686099809241620194080882325895332580864904600228100876161nat * 68630377364883nat <= 795866110994640088439193600000000000000000000000000000000000000000000000000000000000000000000000000000000000000000000000000000000000000000000000000000000nat * 1547425049106725343623905280000000000000000000000000000000000000000000000000000000000nat);
    assert(795866110994640088439193600000000000000000000000000000000000000000000000000000000000000000000000000000000000000000000000000000000000000000000000000000000nat * 1547425049106725343623905280000000000000000000000000000000000000000000000000000000000nat < 17944629631594161214436260901624295772228895719143175344235456993582629445417803890645585260167930050030248066530902022465096557545690546435030427676542355193102458084854650087771969118681496950111810463827551011198914789376nat * 68630377364883nat);
}

#[verifier::spinoff_prover]
proof fn lemma_edge_30()
    ensures
        is_edge(30, 11284879),
{
    lemma_small_powers();
    lemma_pow32_start();
    assert(11284879nat * 11284879nat == 127348494044641nat);
    assert(127348494044641nat * 127348494044641nat == 16217638935437964243300818881nat);
    assert(16217638935437964243300818881nat * 16217638935437964243300818881nat == 263011812640233426153778159082187522346085036165166092161nat);
    assert(263011812640233426153778159082187522346085036165166092161nat * 263011812640233426153778159082187522346085036165166092161nat == 69175213588301251441245608497066105642040221158649463908223013817781097502651443121716752014317843591735945649921nat);
    assert(69175213588301251441245608497066105642040221158649463908223013817781097502651443121716752014317843591735945649921nat * 69175213588301251441245608497066105642040221158649463908223013817781097502651443121716752014317843591735945649921nat == 4785210174987098099327806353534003614595394682200343763777825909417181349889612314412861923404255152927981074611880291781562567733608351694933963257208311930692969600480404779245433943954309437240437879633055012259643087306241nat);
    assert(11284880nat * 11284880nat == 127348516614400nat);
    assert(127348516614400nat * 127348516614400nat == 16217644683888112838287360000nat);
    assert(16217644683888112838287360000nat * 16217644683888112838287360000nat == 263011999092844367389298829873744590454337935769600000000nat);
    assert(263011999092844367389298829873744590454337935769600000000nat * 263011999092844367389298829873744590454337935769600000000nat == 69175311666814366334519869462828060720154069198473428543376621765383714624133932807381175144284160000000000000000nat);
    assert(69175311666814366334519869462828060720154069198473428543376621765383714624133932807381175144284160000000000000000nat * 69175311666814366334519869462828060720154069198473428543376621765383714624133932807381175144284160000000000000000nat == 4785223744200903785558083161648333532107534227105444136718868011654700718046434475757313831212120767005018630708375408276949929772804432072368741044455622088712087370322189599494290193918826905600000000000000000000000000000000nat);
    assert(4785210174987098099327806353534003614595394682200343763777825909417181349889612314412861923404255152927981074611880291781562567733608351694933963257208311930692969600480404779245433943954309437240437879633055012259643087306241nat * 205891132094649nat <= 795866110994640088439193600000000000000000000000000000000000000000000000000000000000000000000000000000000000000000000000000000000000000000000000000000000nat * 1237940039285380274899124224000000000000000000000000000000000000000000000000000000000000nat);
    assert(795866110994640088439193600000000000000000000000000000000000000000000000000000000000000000000000000000000000000000000000000000000000000000000000000000000nat * 1237940039285380274899124224000000000000000000000000000000000000000000000000000000000000nat < 4785223744200903785558083161648333532107534227105444136718868011654700718046434475757313831212120767005018630708375408276949929772804432072368741044455622088712087370322189599494290193918826905600000000000000000000000000000000nat * 205891132094649nat);
}

#[verifier::spinoff_prover]
proof fn lemma_edge_31()
    ensures
        is_edge(31, 13437190),
{
    lemma_small_powers();
    lemma_pow32_start();
    assert(13437190nat * 13437190nat == 180558075096100nat);
    assert(180558075096100nat * 180558075096100nat == 32601218482408887024235210000nat);
    assert(32601218482408887024235210000nat * 32601218482408887024235210000nat == 1062839446537758814747261008932890365209885403744100000000nat);
    assert(1062839446537758814747261008932890365209885403744100000000nat * 1062839446537758814747261008932890365209885403744100000000nat == 1129627689116689477784375584341647478259612624723722065314615381228839646963663513897823866298284810000000000000000nat);
    assert(1129627689116689477784375584341647478259612624723722065314615381228839646963663513897823866298284810000000000000000nat * 1129627689116689477784375584341647478259612624723722065314615381228839646963663513897823866298284810000000000000000nat == 1276058716019112051253978497521349937670205427028031911723273768296657988010490058262972239215056506616836380506537426108938708737167270678219510530956725775328244565737106653075458655524747876736100000000000000000000000000000000nat);
    assert(13437191nat * 13437191nat == 180558101970481nat);
    assert(180558101970481nat * 180558101970481nat == 32601228187182614774995371361nat);
    assert(32601228187182614774995371361nat * 32601228187182614774995371361nat == 1062840079312750238868916875373578115123260938974298992321nat);
    assert(1062840079312750238868916875373578115123260938974298992321nat * 1062840079312750238868916875373578115123260938974298992321nat == 1129629034193533218271229676845538400686177827375881037798923916086381419727915194822183170151141040633716016967041nat);
    assert(1129629034193533218271229676845538400686177827375881037798923916086381419727915194822183170151141040633716016967041nat * 1129629034193533218271229676845538400686177827375881037798923916086381419727915194822183170151141040633716016967041nat == 1276061754893014640842735766268734849981663801438144499002312891427150665494394580174001913733149082548120587649534747007410517576366516765335261180750900028947871019840619990680850318798383825221705939648435085850996592480295681nat);
    assert(1276058716019112051253978497521349937670205427028031911723273768296657988010490058262972239215056506616836380506537426108938708737167270678219510530956725775328244565737106653075458655524747876736100000000000000000000000000000000nat * 617673396283947nat <= 795866110994640088439193600000000000000000000000000000000000000000000000000000000000000000000000000000000000000000000000000000000000000000000000000000000nat * 990352031428304219919299379200000000000000000000000000000000000000000000000000000000000000nat);
    assert(795866110994640088439193600000000000000000000000000000000000000000000000000000000000000000000000000000000000000000000000000000000000000000000000000000000nat * 990352031428304219919299379200000000000000000000000000000000000000000000000000000000000000nat < 1276061754893014640842735766268734849981663801438144499002312891427150665494394580174001913733149082548120587649534747007410517576366516765335261180750900028947871019840619990680850318798383825221705939648435085850996592480295681nat * 617673396283947nat);
}

#[verifier::spinoff_prover]
proof fn lemma_edge_32()
    ensures
        is_edge(32, 16000000),
{
    lemma_small_powers();
    lemma_pow32_start();
    assert(16000000nat * 16000000nat == 256000000000000nat);
    assert(256000000000000nat * 256000000000000nat == 65536000000000000000000000000nat);
    assert(65536000000000000000000000000nat * 65536000000000000000000000000nat == 4294967296000000000000000000000000000000000000000000000000nat);
    assert(4294967296000000000000000000000000000000000000000000000000nat * 4294967296000000000000000000000000000000000000000000000000nat == 18446744073709551616000000000000000000000000000000000000000000000000000000000000000000000000000000000000000000000000nat);
    assert(18446744073709551616000000000000000000000000000000000000000000000000000000000000000000000000000000000000000000000000nat * 18446744073709551616000000000000000000000000000000000000000000000000000000000000000000000000000000000000000000000000nat == 340282366920938463463374607431768211456000000000000000000000000000000000000000000000000000000000000000000000000000000000000000000000000000000000000000000000000000000000000000000000000000000000000000000000000000000000000000000000000nat);
    assert(16000001nat * 16000001nat == 256000032000001nat);
    assert(256000032000001nat * 256000032000001nat == 65536016384001536000064000001nat);
    assert(65536016384001536000064000001nat * 65536016384001536000064000001nat == 4294969443484117762106720260587520229376007168000128000001nat);
    assert(4294969443484117762106720260587520229376007168000128000001nat * 4294969443484117762106720260587520229376007168000128000001nat == 18446762520462272239358183655932012216071366898989381077136072170421750991950308180087275522293760030720000256000001nat);
    assert(18446762520462272239358183655932012216071366898989381077136072170421750991950308180087275522293760030720000256000001nat * 18446762520462272239358183655932012216071366898989381077136072170421750991950308180087275522293760030720000256000001nat == 340283047486331602838271717862327667073544954484066028693777296806564190102086684283767775705005594894385677142657844749992183585056385153058305979561203879031245054882488472213031905393715132630042932674580316160126976000512000001nat);
    assert(340282366920938463463374607431768211456000000000000000000000000000000000000000000000000000000000000000000000000000000000000000000000000000000000000000000000000000000000000000000000000000000000000000000000000000000000000000000000000nat * 1853020188851841nat <= 795866110994640088439193600000000000000000000000000000000000000000000000000000000000000000000000000000000000000000000000000000000000000000000000000000000nat * 792281625142643375935439503360000000000000000000000000000000000000000000000000000000000000000nat);
    assert(795866110994640088439193600000000000000000000000000000000000000000000000000000000000000000000000000000000000000000000000000000000000000000000000000000000nat * 792281625142643375935439503360000000000000000000000000000000000000000000000000000000000000000nat < 340283047486331602838271717862327667073544954484066028693777296806564190102086684283767775705005594894385677142657844749992183585056385153058305979561203879031245054882488472213031905393715132630042932674580316160126976000512000001nat * 1853020188851841nat);
}

proof fn lemma_table_exact(i: nat)
    requires
        i <= BAR_COUNT,
    ensures
        is_edge(i, edge_table(i)),
{
    if i == 0 {
        lemma_edge_0();
    } else if i == 1 {
        lemma_edge_1();
    } else if i == 2 {
        lemma_edge_2();
    } else if i == 3 {
        lemma_edge_3();
    } else if i == 4 {
        lemma_edge_4();
    } else if i == 5 {
        lemma_edge_5();
    } else if i == 6 {
        lemma_edge_6();
    } else if i == 7 {
        lemma_edge_7();
    } else if i == 8 {
        lemma_edge_8();
    } else if i == 9 {
        lemma_edge_9();
    } else if i == 10 {
        lemma_edge_10();
    } else if i == 11 {
        lemma_edge_11();
    } else if i == 12 {
        lemma_edge_12();
    } else if i == 13 {
        lemma_edge_13();
    } else if i == 14 {
        lemma_edge_14();
    } else if i == 15 {
        lemma_edge_15();
    } else if i == 16 {
        lemma_edge_16();
    } else if i == 17 {
        lemma_edge_17();
    } else if i == 18 {
        lemma_edge_18();
    } else if i == 19 {
        lemma_edge_19();
    } else if i == 20 {
        lemma_edge_20();
    } else if i == 21 {
        lemma_edge_21();
    } else if i == 22 {
        lemma_edge_22();
    } else if i == 23 {
        lemma_edge_23();
    } else if i == 24 {
        lemma_edge_24();
    } else if i == 25 {
        lemma_edge_25();
    } else if i == 26 {
        lemma_edge_26();
    } else if i == 27 {
        lemma_edge_27();
    } else if i == 28 {
        lemma_edge_28();
    } else if i == 29 {
        lemma_edge_29();
    } else if i == 30 {
        lemma_edge_30();
    } else if i == 31 {
        lemma_edge_31();
    } else if i == 32 {
        lemma_edge_32();
    }
}

proof fn lemma_edge_unique(i: nat, e: nat, f: nat)
    requires
        is_edge(i, e),
        is_edge(i, f),
    ensures
        e == f,
{
    lemma_pow_exp_mono(3, 0, i);
    let t = pow_nat(3, i);
    if e < f {
        lemma_pow32_mono(e + 1, f);
        let a = pow32(e + 1);
        let b = pow32(f);
        assert(a * t <= b * t) by (nonlinear_arith)
            requires
                a <= b,
                t >= 1,
        ;
    } else if f < e {
        lemma_pow32_mono(f + 1, e);
        let a = pow32(f + 1);
        let b = pow32(e);
        assert(a * t <= b * t) by (nonlinear_arith)
            requires
                a <= b,
                t >= 1,
        ;
    }
}

proof fn lemma_edge_value(i: nat)
    requires
        i <= BAR_COUNT,
    ensures
        edge_mhz(i) == edge_table(i),
        is_edge(i, edge_mhz(i)),
{
    lemma_table_exact(i);
    lemma_edge_unique(i, edge_table(i), edge_mhz(i));
}

/// Each edge lies strictly above the one before it.
proof fn lemma_edge_step(i: nat)
    requires
        i < BAR_COUNT,
    ensures
        edge_mhz(i) < edge_mhz(i + 1),
{
    lemma_edge_value(i);
    lemma_edge_value(i + 1);
}

/// Band edges increase strictly in frequency across the bar index.
pub proof fn lemma_edges_increase(i: nat, j: nat)
    requires
        i < j <= BAR_COUNT,
    ensures
        edge_mhz(i) < edge_mhz(j),
    decreases j - i,
{
    lemma_edge_step((j - 1) as nat);
    if i + 1 < j {
        lemma_edges_increase(i, (j - 1) as nat);
    }
}

proof fn lemma_edges_bounded(i: nat)
    requires
        i <= BAR_COUNT,
    ensures
        MIN_FREQ_MHZ <= edge_mhz(i) <= MAX_FREQ_MHZ,
{
    lemma_edge_value(i);
}

/// Lower edge of band `i`, in millihertz.
pub fn band_edge_mhz(i: usize) -> (r: u64)
    requires
        i <= BAR_COUNT,
    ensures
        r == edge_mhz(i as nat),
{
    proof {
        lemma_edge_value(i as nat);
    }
    match i {
        0 => 60000,
        1 => 71443,
        2 => 85069,
        3 => 101294,
        4 => 120613,
        5 => 143617,
        6 => 171009,
        7 => 203625,
        8 => 242461,
        9 => 288705,
        10 => 343768,
        11 => 409334,
        12 => 487404,
        13 => 580364,
        14 => 691054,
        15 => 822856,
        16 => 979795,
        17 => 1166667,
        18 => 1389180,
        19 => 1654132,
        20 => 1969616,
        21 => 2345272,
        22 => 2792574,
        23 => 3325188,
        24 => 3959385,
        25 => 4714539,
        26 => 5613721,
        27 => 6684399,
        28 => 7959281,
        29 => 9477317,
        30 => 11284879,
        31 => 13437190,
        _ => 16000000,
    }
}

/// The frequency bin that holds frequency `f_mhz` at `sample_rate`, capped at
/// `HALF_BINS`; a sample rate of zero puts every frequency at the cap.
pub open spec fn bin_of(f_mhz: nat, sample_rate: nat) -> nat {
    if sample_rate == 0 {
        HALF_BINS as nat
    } else {
        let b = f_mhz * (FFT_SIZE as nat) / (sample_rate * 1000);
        if b > HALF_BINS {
            HALF_BINS as nat
        } else {
            b
        }
    }
}

/// First bin of band `i`.
pub open spec fn band_start(i: nat, sample_rate: nat) -> nat {
    bin_of(edge_mhz(i), sample_rate)
}

/// One past the last bin of band `i`.
pub open spec fn band_end(i: nat, sample_rate: nat) -> nat {
    bin_of(edge_mhz(i + 1), sample_rate)
}

/// Bin of a frequency, as `bin_of` states.
pub fn frequency_bin(f_mhz: u64, sample_rate: u32) -> (r: usize)
    requires
        f_mhz <= 16000000,
    ensures
        r == bin_of(f_mhz as nat, sample_rate as nat),
{
    if sample_rate == 0 {
        HALF_BINS
    } else {
        let den: u64 = sample_rate as u64 * 1000;
        assert(f_mhz * 2048 <= 16000000 * 2048) by (nonlinear_arith)
            requires
                f_mhz <= 16000000,
        ;
        let b: u64 = f_mhz * (FFT_SIZE as u64) / den;
        if b > HALF_BINS as u64 {
            HALF_BINS
        } else {
            b as usize
        }
    }
}

/// Bin range `[start, end)` of band `i`.
pub fn band_bins(i: usize, sample_rate: u32) -> (r: (usize, usize))
    requires
        i < BAR_COUNT,
    ensures
        r.0 == band_start(i as nat, sample_rate as nat),
        r.1 == band_end(i as nat, sample_rate as nat),
        r.0 <= r.1 <= HALF_BINS,
{
    proof {
        lemma_edges_bounded(i as nat);
        lemma_edges_bounded((i + 1) as nat);
        lemma_bins_ordered(i as nat, sample_rate as nat);
    }
    let lo = band_edge_mhz(i);
    let hi = band_edge_mhz(i + 1);
    (frequency_bin(lo, sample_rate), frequency_bin(hi, sample_rate))
}

/// A band's first bin never lies past its end, nor its end past `HALF_BINS`.
proof fn lemma_bins_ordered(i: nat, sample_rate: nat)
    requires
        i < BAR_COUNT,
    ensures
        band_start(i, sample_rate) <= band_end(i, sample_rate) <= HALF_BINS,
{
    lemma_edge_step(i);
    if sample_rate > 0 {
        vstd::arithmetic::div_mod::lemma_div_is_ordered(
            (edge_mhz(i) * 2048) as int,
            (edge_mhz(i + 1) * 2048) as int,
            (sample_rate * 1000) as int,
        );
    }
}

/// One frequency bin of a transform, in fixed point.
#[derive(Clone, Copy, Debug, PartialEq, Eq)]
pub struct Bin {
    pub re: i32,
    pub im: i32,
}

/// `r` is the integer square root of `n`.
pub open spec fn is_root(n: nat, r: nat) -> bool {
    r * r <= n && n < (r + 1) * (r + 1)
}

/// Integer square root: the largest `r` with `r * r <= n`.
pub open spec fn isqrt(n: nat) -> nat {
    choose|r: nat| is_root(n, r)
}

proof fn lemma_root_unique(n: nat, r: nat, s: nat)
    requires
        is_root(n, r),
        is_root(n, s),
    ensures
        r == s,
{
    if r < s {
        assert((r + 1) * (r + 1) <= s * s) by (nonlinear_arith)
            requires
                r + 1 <= s,
        ;
    } else if s < r {
        assert((s + 1) * (s + 1) <= r * r) by (nonlinear_arith)
            requires
                s + 1 <= r,
        ;
    }
}

/// Integer square root of `n`, by bisection.
pub fn int_sqrt(n: u64) -> (r: u64)
    ensures
        r == isqrt(n as nat),
        is_root(n as nat, r as nat),
{
    let mut lo: u64 = 0;
    let mut hi: u64 = 4294967296;
    assert(n < 4294967296 * 4294967296);
    while hi - lo > 1
        invariant
            lo < hi <= 4294967296,
            lo * lo <= n,
            n < hi * hi,
        decreases hi - lo,
    {
        let mid: u64 = lo + (hi - lo) / 2;
        assert(mid * mid < 4294967296 * 4294967296) by (nonlinear_arith)
            requires
                mid < 4294967296,
        ;
        if mid * mid <= n {
            lo = mid;
        } else {
            hi = mid;
        }
    }
    proof {
        assert(is_root(n as nat, lo as nat));
        lemma_root_unique(n as nat, lo as nat, isqrt(n as nat));
    }
    lo
}

/// Magnitude of a bin, `sqrt(re² + im²)` rounded down.
pub open spec fn magnitude(b: Bin) -> nat {
    isqrt((b.re * b.re + b.im * b.im) as nat)
}

/// Largest magnitude a bin can have.
pub const MAX_MAGNITUDE: u64 = 3037000500;

/// Magnitude of `b`, as `magnitude` states.
pub fn bin_magnitude(b: Bin) -> (r: u64)
    ensures
        r == magnitude(b),
        r <= MAX_MAGNITUDE,
{
    let re = b.re as i64;
    let im = b.im as i64;
    assert(re * re <= 4611686018427387904 && im * im <= 4611686018427387904) by (nonlinear_arith)
        requires
            -2147483648 <= re <= 2147483647,
            -2147483648 <= im <= 2147483647,
    ;
    assert(re * re >= 0 && im * im >= 0) by (nonlinear_arith);
    let sq: u64 = (re * re) as u64 + (im * im) as u64;
    let r = int_sqrt(sq);
    assert(r <= MAX_MAGNITUDE) by (nonlinear_arith)
        requires
            r * r <= sq,
            sq <= 9223372036854775808,
    ;
    r
}

/// `b` to the power `e`.
pub open spec fn pow_nat(b: nat, e: nat) -> nat
    decreases e,
{
    if e == 0 {
        1
    } else {
        b * pow_nat(b, (e - 1) as nat)
    }
}

proof fn lemma_pow_base_mono(a: nat, b: nat, e: nat)
    requires
        a <= b,
    ensures
        pow_nat(a, e) <= pow_nat(b, e),
    decreases e,
{
    if e > 0 {
        lemma_pow_base_mono(a, b, (e - 1) as nat);
        let pa = pow_nat(a, (e - 1) as nat);
        let pb = pow_nat(b, (e - 1) as nat);
        assert(a * pa <= b * pb) by (nonlinear_arith)
            requires
                a <= b,
                pa <= pb,
        ;
    }
}

proof fn lemma_pow_exp_mono(b: nat, e: nat, f: nat)
    requires
        b >= 1,
        e <= f,
    ensures
        pow_nat(b, e) <= pow_nat(b, f),
    decreases f,
{
    if e < f {
        lemma_pow_exp_mono(b, e, (f - 1) as nat);
        let p = pow_nat(b, (f - 1) as nat);
        assert(p <= b * p) by (nonlinear_arith)
            requires
                b >= 1,
        ;
    }
}

proof fn lemma_pow_limits()
    ensures
        pow_nat(1001, 10) == 1010045120210252210120045010001,
        pow_nat(1000, 7) == 1000000000000000000000,
{
    reveal_with_fuel(pow_nat, 11);
}

/// `b` to the power `e`, for the small bases and exponents of level shaping.
fn pow_small(b: u64, e: u32) -> (r: u128)
    requires
        b <= 1001,
        e <= 10,
    ensures
        r == pow_nat(b as nat, e as nat),
{
    let mut acc: u128 = 1;
    let mut i: u32 = 0;
    while i < e
        invariant
            b <= 1001,
            i <= e <= 10,
            acc == pow_nat(b as nat, i as nat),
        decreases e - i,
    {
        proof {
            lemma_pow_limits();
            lemma_pow_base_mono(b as nat, 1001, i as nat);
            lemma_pow_exp_mono(1001, (i + 1) as nat, 10);
            let p = pow_nat(1001, i as nat);
            assert(b * acc <= 1001 * p) by (nonlinear_arith)
                requires
                    acc <= p,
                    b <= 1001,
            ;
            assert(1001 * p == pow_nat(1001, (i + 1) as nat));
            assert(b * acc <= 1010045120210252210120045010001);
        }
        acc = (b as u128) * acc;
        i = i + 1;
        assert(acc == pow_nat(b as nat, i as nat));
    }
    acc
}

/// `r` is `1000 * (x / 1000)^0.7`, rounded down: `r^10 <= 10^9 * x^7 < (r + 1)^10`.
pub open spec fn is_compressed(x: nat, r: nat) -> bool {
    pow_nat(r, 10) <= 1000000000 * pow_nat(x, 7) < pow_nat(r + 1, 10)
}

/// Dynamic-range compression of a level in thousandths: `1000 * (x / 1000)^0.7`.
pub open spec fn compress(x: nat) -> nat {
    choose|r: nat| is_compressed(x, r)
}

proof fn lemma_compressed_unique(x: nat, r: nat, s: nat)
    requires
        is_compressed(x, r),
        is_compressed(x, s),
    ensures
        r == s,
{
    if r < s {
        lemma_pow_base_mono(r + 1, s, 10);
    } else if s < r {
        lemma_pow_base_mono(s + 1, r, 10);
    }
}

/// Compresses a level in thousandths, as `compress` states.
pub fn compress_level(x: u64) -> (r: u64)
    requires
        x <= FULL_SCALE,
    ensures
        r == compress(x as nat),
        r <= FULL_SCALE,
{
    proof {
        lemma_pow_limits();
        lemma_pow_base_mono(x as nat, 1000, 7);
    }
    let t: u128 = 1000000000 * pow_small(x, 7);
    let mut lo: u64 = 0;
    let mut hi: u64 = 1001;
    proof {
        reveal_with_fuel(pow_nat, 2);
    }
    while hi - lo > 1
        invariant
            lo < hi <= 1001,
            pow_nat(lo as nat, 10) <= t,
            t < pow_nat(hi as nat, 10),
        decreases hi - lo,
    {
        let mid: u64 = lo + (hi - lo) / 2;
        if pow_small(mid, 10) <= t {
            lo = mid;
        } else {
            hi = mid;
        }
    }
    proof {
        assert(is_compressed(x as nat, lo as nat));
        lemma_compressed_unique(x as nat, lo as nat, compress(x as nat));
    }
    lo
}

/// Sum of the magnitudes of bins `lo .. hi`.
pub open spec fn mag_sum(bins: Seq<Bin>, lo: int, hi: int) -> nat
    decreases hi - lo,
{
    if hi <= lo {
        0
    } else {
        mag_sum(bins, lo, hi - 1) + magnitude(bins[hi - 1])
    }
}

/// Number of bins in band `i`.
pub open spec fn band_count(i: nat, sample_rate: nat) -> nat {
    if band_end(i, sample_rate) > band_start(i, sample_rate) {
        (band_end(i, sample_rate) - band_start(i, sample_rate)) as nat
    } else {
        0
    }
}

/// Mean magnitude over band `i`; zero for a band without bins.
pub open spec fn band_raw(bins: Seq<Bin>, i: nat, sample_rate: nat) -> nat {
    if band_count(i, sample_rate) == 0 {
        0
    } else {
        mag_sum(bins, band_start(i, sample_rate) as int, band_end(i, sample_rate) as int)
            / band_count(i, sample_rate)
    }
}

/// Largest mean magnitude among the first `n` bands.
pub open spec fn peak_upto(bins: Seq<Bin>, sample_rate: nat, n: nat) -> nat
    decreases n,
{
    if n == 0 {
        0
    } else {
        let p = peak_upto(bins, sample_rate, (n - 1) as nat);
        let b = band_raw(bins, (n - 1) as nat, sample_rate);
        if b > p {
            b
        } else {
            p
        }
    }
}

/// Largest mean magnitude of the frame.
pub open spec fn peak(bins: Seq<Bin>, sample_rate: nat) -> nat {
    peak_upto(bins, sample_rate, BAR_COUNT as nat)
}

/// Level of band `i` after normalising by the frame's peak, in thousandths;
/// with a zero peak nothing is normalised (and every band is zero).
pub open spec fn band_level(bins: Seq<Bin>, i: nat, sample_rate: nat) -> nat {
    if peak(bins, sample_rate) == 0 {
        band_raw(bins, i, sample_rate)
    } else {
        band_raw(bins, i, sample_rate) * 1000 / peak(bins, sample_rate)
    }
}

/// Perceptual shaping of a level: sensitivity 0.8, then compression.
pub open spec fn shaped(level: nat) -> nat {
    compress(level * 8 / 10)
}

/// Bounds a bar height to `[BAR_FLOOR, BAR_CEIL]`.
pub open spec fn clamp_bar(v: nat) -> nat {
    if v < BAR_FLOOR {
        BAR_FLOOR as nat
    } else if v > BAR_CEIL {
        BAR_CEIL as nat
    } else {
        v
    }
}

/// First-order low-pass: 70% of the previous height, 30% of the new one.
pub open spec fn smooth(prev: nat, level: nat) -> nat {
    clamp_bar((prev * 7 + level * 3) / 10)
}

/// The bars after one analysis of `bins`: a band with bins moves toward its
/// shaped level, a band without bins keeps its height.
pub open spec fn analyzed(prev: Seq<u32>, bins: Seq<Bin>, sample_rate: nat) -> Seq<u32> {
    Seq::new(
        BAR_COUNT as nat,
        |i: int|
            if band_count(i as nat, sample_rate) == 0 {
                prev[i]
            } else {
                smooth(prev[i] as nat, shaped(band_level(bins, i as nat, sample_rate))) as u32
            },
    )
}

/// One tick of idle decay of a bar: 90% of its height, never under the floor.
pub open spec fn decay_bar(v: nat) -> nat {
    if v * 9 / 10 < BAR_FLOOR {
        BAR_FLOOR as nat
    } else {
        v * 9 / 10
    }
}

/// The bars after one tick of idle decay.
pub open spec fn decayed(prev: Seq<u32>) -> Seq<u32> {
    Seq::new(BAR_COUNT as nat, |i: int| decay_bar(prev[i] as nat) as u32)
}

/// A bar's height after `k` ticks of idle decay.
pub open spec fn decay_times(v: nat, k: nat) -> nat
    decreases k,
{
    if k == 0 {
        v
    } else {
        decay_times(decay_bar(v), (k - 1) as nat)
    }
}

/// Every bar of a frame lies within `[BAR_FLOOR, BAR_CEIL]`.
pub open spec fn bars_in_range(s: Seq<u32>) -> bool {
    &&& s.len() == BAR_COUNT
    &&& forall|i: int| 0 <= i < s.len() ==> BAR_FLOOR <= #[trigger] s[i] <= BAR_CEIL
}

proof fn lemma_mag_sum_bound(bins: Seq<Bin>, lo: int, hi: int)
    requires
        lo <= hi,
    ensures
        mag_sum(bins, lo, hi) <= (hi - lo) * MAX_MAGNITUDE,
    decreases hi - lo,
{
    if hi > lo {
        lemma_mag_sum_bound(bins, lo, hi - 1);
        let b = bins[hi - 1];
        let sq = (b.re * b.re + b.im * b.im) as nat;
        assert(b.re * b.re + b.im * b.im <= 9223372036854775808) by (nonlinear_arith)
            requires
                -2147483648 <= b.re <= 2147483647,
                -2147483648 <= b.im <= 2147483647,
        ;
        assert(b.re * b.re + b.im * b.im >= 0) by (nonlinear_arith);
        let r = isqrt(sq);
        assert(is_root(sq, r)) by {
            int_sqrt_witness(sq);
        }
        assert(r <= MAX_MAGNITUDE) by (nonlinear_arith)
            requires
                r * r <= sq,
                sq <= 9223372036854775808,
        ;
    }
}

/// Every number has an integer square root.
proof fn int_sqrt_witness(n: nat) -> (r: nat)
    ensures
        is_root(n, r),
        is_root(n, isqrt(n)),
    decreases n,
{
    if n == 0 {
        assert(is_root(0, 0)) by (nonlinear_arith);
        0
    } else {
        let s = int_sqrt_witness((n - 1) as nat);
        let r = if n == (s + 1) * (s + 1) {
            s + 1
        } else {
            s
        };
        assert(is_root(n, r)) by (nonlinear_arith)
            requires
                s * s <= n - 1,
                n - 1 < (s + 1) * (s + 1),
                r == (if n == (s + 1) * (s + 1) {
                    s + 1
                } else {
                    s
                }),
        ;
        r
    }
}

/// Sum of magnitudes of bins `lo .. hi`.
fn band_sum(bins: &Vec<Bin>, lo: usize, hi: usize) -> (r: u64)
    requires
        lo <= hi <= bins@.len() <= HALF_BINS,
    ensures
        r == mag_sum(bins@, lo as int, hi as int),
{
    let mut acc: u64 = 0;
    let mut k: usize = lo;
    while k < hi
        invariant
            lo <= k <= hi <= bins@.len() <= HALF_BINS,
            acc == mag_sum(bins@, lo as int, k as int),
        decreases hi - k,
    {
        proof {
            lemma_mag_sum_bound(bins@, lo as int, k as int);
            assert((k - lo) * MAX_MAGNITUDE <= 1024 * MAX_MAGNITUDE) by (nonlinear_arith)
                requires
                    k - lo <= 1024,
            ;
        }
        acc = acc + bin_magnitude(bins[k]);
        k = k + 1;
    }
    acc
}

proof fn lemma_raw_le_peak(bins: Seq<Bin>, sample_rate: nat, i: nat, n: nat)
    requires
        i < n,
    ensures
        band_raw(bins, i, sample_rate) <= peak_upto(bins, sample_rate, n),
    decreases n,
{
    if i < n - 1 {
        lemma_raw_le_peak(bins, sample_rate, i, (n - 1) as nat);
    }
}

proof fn lemma_raw_bound(bins: Seq<Bin>, i: nat, sample_rate: nat)
    ensures
        band_raw(bins, i, sample_rate) <= MAX_MAGNITUDE,
{
    if band_count(i, sample_rate) > 0 {
        let lo = band_start(i, sample_rate) as int;
        let hi = band_end(i, sample_rate) as int;
        let c = band_count(i, sample_rate);
        lemma_mag_sum_bound(bins, lo, hi);
        let m = mag_sum(bins, lo, hi);
        assert(m / c <= MAX_MAGNITUDE) by (nonlinear_arith)
            requires
                m <= c * MAX_MAGNITUDE,
                c > 0,
        ;
    }
}

proof fn lemma_peak_bound(bins: Seq<Bin>, sample_rate: nat, n: nat)
    ensures
        peak_upto(bins, sample_rate, n) <= MAX_MAGNITUDE,
    decreases n,
{
    if n > 0 {
        lemma_peak_bound(bins, sample_rate, (n - 1) as nat);
        lemma_raw_bound(bins, (n - 1) as nat, sample_rate);
    }
}

/// Mean magnitude of every band, and the largest of them.
fn band_means(bins: &Vec<Bin>, sample_rate: u32) -> (r: (Vec<u64>, u64))
    requires
        bins@.len() == HALF_BINS,
    ensures
        r.0@.len() == BAR_COUNT,
        forall|i: int|
            0 <= i < BAR_COUNT ==> #[trigger] r.0@[i] == band_raw(bins@, i as nat, sample_rate as nat),
        r.1 == peak(bins@, sample_rate as nat),
{
    let mut means: Vec<u64> = Vec::with_capacity(BAR_COUNT);
    let mut top: u64 = 0;
    let mut i: usize = 0;
    while i < BAR_COUNT
        invariant
            bins@.len() == HALF_BINS,
            i <= BAR_COUNT,
            means@.len() == i,
            forall|j: int| 0 <= j < i ==> #[trigger] means@[j] == band_raw(bins@, j as nat, sample_rate as nat),
            top == peak_upto(bins@, sample_rate as nat, i as nat),
        decreases BAR_COUNT - i,
    {
        let (lo, hi) = band_bins(i, sample_rate);
        let m: u64 = if hi > lo {
            let total = band_sum(bins, lo, hi);
            total / ((hi - lo) as u64)
        } else {
            0
        };
        proof {
            lemma_raw_bound(bins@, i as nat, sample_rate as nat);
        }
        means.push(m);
        if m > top {
            top = m;
        }
        i = i + 1;
    }
    (means, top)
}

/// Level of every band after normalising by the frame's peak, in thousandths.
pub fn band_levels(bins: &Vec<Bin>, sample_rate: u32) -> (r: Vec<u64>)
    requires
        bins@.len() == HALF_BINS,
    ensures
        r@.len() == BAR_COUNT,
        forall|i: int|
            0 <= i < BAR_COUNT ==> #[trigger] r@[i] == band_level(bins@, i as nat, sample_rate as nat),
        forall|i: int| 0 <= i < BAR_COUNT ==> #[trigger] r@[i] <= FULL_SCALE,
{
    let (means, top) = band_means(bins, sample_rate);
    let mut levels: Vec<u64> = Vec::with_capacity(BAR_COUNT);
    let mut i: usize = 0;
    while i < BAR_COUNT
        invariant
            bins@.len() == HALF_BINS,
            i <= BAR_COUNT,
            means@.len() == BAR_COUNT,
            forall|j: int|
                0 <= j < BAR_COUNT ==> #[trigger] means@[j] == band_raw(bins@, j as nat, sample_rate as nat),
            top == peak(bins@, sample_rate as nat),
            levels@.len() == i,
            forall|j: int|
                0 <= j < i ==> #[trigger] levels@[j] == band_level(bins@, j as nat, sample_rate as nat),
            forall|j: int| 0 <= j < i ==> #[trigger] levels@[j] <= FULL_SCALE,
        decreases BAR_COUNT - i,
    {
        let m = means[i];
        proof {
            lemma_raw_le_peak(bins@, sample_rate as nat, i as nat, BAR_COUNT as nat);
            lemma_raw_bound(bins@, i as nat, sample_rate as nat);
        }
        let v: u64 = if top == 0 {
            m
        } else {
            assert((m as int) * 1000 / (top as int) <= 1000) by (nonlinear_arith)
                requires
                    m <= top,
                    top > 0,
            ;
            m * 1000 / top
        };
        levels.push(v);
        i = i + 1;
    }
    levels
}

/// The newest `FFT_SIZE` samples of `ring`, oldest first, once the ring holds
/// that many; `None` while it holds fewer, so that no analysis runs on a
/// window padded with silence.
pub fn analysis_window<T: Copy>(ring: &SampleRing<T>) -> (r: Option<Vec<T>>)
    requires
        ring.wf(),
    ensures
        r.is_some() == (ring@.len() >= FFT_SIZE),
        r matches Some(w) ==> w@ == newest(ring@, FFT_SIZE as nat) && w@.len() == FFT_SIZE,
{
    if ring.len() < FFT_SIZE {
        None
    } else {
        let w = ring.snapshot(FFT_SIZE);
        assert(w@.len() == FFT_SIZE);
        Some(w)
    }
}

/// Heights of the spectrum bars, in thousandths of full scale.
pub struct SpectrumFrame {
    bars: Vec<u32>,
}

impl View for SpectrumFrame {
    type V = Seq<u32>;

    closed spec fn view(&self) -> Seq<u32> {
        self.bars@
    }
}

impl SpectrumFrame {
    /// `BAR_COUNT` bars, each within `[BAR_FLOOR, BAR_CEIL]`.
    pub open spec fn wf(&self) -> bool {
        bars_in_range(self@)
    }

    /// A frame with every bar at `BAR_START`.
    pub fn new() -> (r: Self)
        ensures
            r.wf(),
            r@ == Seq::new(BAR_COUNT as nat, |i: int| BAR_START),
    {
        let mut bars: Vec<u32> = Vec::with_capacity(BAR_COUNT);
        let mut i: usize = 0;
        while i < BAR_COUNT
            invariant
                i <= BAR_COUNT,
                bars@.len() == i,
                forall|j: int| 0 <= j < i ==> #[trigger] bars@[j] == BAR_START,
            decreases BAR_COUNT - i,
        {
            bars.push(BAR_START);
            i = i + 1;
        }
        let r = SpectrumFrame { bars };
        assert(r@ =~= Seq::new(BAR_COUNT as nat, |i: int| BAR_START));
        r
    }

    /// A frame with the given heights, if there are `BAR_COUNT` of them and
    /// each lies within `[BAR_FLOOR, BAR_CEIL]`.
    pub fn from_bars(bars: Vec<u32>) -> (r: Option<Self>)
        ensures
            r.is_some() == bars_in_range(bars@),
            r matches Some(f) ==> f.wf() && f@ == bars@,
    {
        if bars.len() != BAR_COUNT {
            return None;
        }
        let mut i: usize = 0;
        while i < BAR_COUNT
            invariant
                i <= BAR_COUNT,
                bars@.len() == BAR_COUNT,
                forall|j: int| 0 <= j < i ==> BAR_FLOOR <= #[trigger] bars@[j] <= BAR_CEIL,
            decreases BAR_COUNT - i,
        {
            if bars[i] < BAR_FLOOR || bars[i] > BAR_CEIL {
                return None;
            }
            i = i + 1;
        }
        Some(SpectrumFrame { bars })
    }

    /// The bar heights, lowest band first.
    pub fn bars(&self) -> (r: &[u32])
        ensures
            r@ == self@,
    {
        self.bars.as_slice()
    }

    /// One tick without playback: every bar sinks toward the floor.
    pub fn decay(&mut self)
        requires
            old(self).wf(),
        ensures
            final(self).wf(),
            final(self)@ == decayed(old(self)@),
    {
        let ghost before = self@;
        let mut i: usize = 0;
        while i < BAR_COUNT
            invariant
                i <= BAR_COUNT,
                bars_in_range(before),
                self.bars@.len() == BAR_COUNT,
                forall|j: int| i <= j < BAR_COUNT ==> #[trigger] self.bars@[j] == before[j],
                forall|j: int|
                    0 <= j < i ==> #[trigger] self.bars@[j] == decay_bar(before[j] as nat) as u32,
            decreases BAR_COUNT - i,
        {
            let v = self.bars[i];
            let d = v * 9 / 10;
            let nv: u32 = if d < BAR_FLOOR {
                BAR_FLOOR
            } else {
                d
            };
            self.bars.set(i, nv);
            i = i + 1;
        }
        assert(self@ =~= decayed(before));
    }

    /// One analysis tick on the bins of a transform of the newest window:
    /// each band with bins moves toward its normalised, shaped level; a band
    /// without bins keeps its height.
    pub fn analyze(&mut self, bins: &Vec<Bin>, sample_rate: u32)
        requires
            old(self).wf(),
            bins@.len() == HALF_BINS,
        ensures
            final(self).wf(),
            final(self)@ == analyzed(old(self)@, bins@, sample_rate as nat),
    {
        let ghost before = self@;
        let levels = band_levels(bins, sample_rate);
        let mut i: usize = 0;
        while i < BAR_COUNT
            invariant
                i <= BAR_COUNT,
                bins@.len() == HALF_BINS,
                bars_in_range(before),
                levels@.len() == BAR_COUNT,
                forall|j: int|
                    0 <= j < BAR_COUNT ==> #[trigger] levels@[j] == band_level(bins@, j as nat, sample_rate as nat),
                forall|j: int| 0 <= j < BAR_COUNT ==> #[trigger] levels@[j] <= FULL_SCALE,
                self.bars@.len() == BAR_COUNT,
                forall|j: int| i <= j < BAR_COUNT ==> #[trigger] self.bars@[j] == before[j],
                forall|j: int|
                    0 <= j < i ==> #[trigger] self.bars@[j] == analyzed(before, bins@, sample_rate as nat)[j],
                forall|j: int| 0 <= j < i ==> BAR_FLOOR <= #[trigger] self.bars@[j] <= BAR_CEIL,
            decreases BAR_COUNT - i,
        {
            let (lo, hi) = band_bins(i, sample_rate);
            if hi > lo {
                let level = levels[i];
                let c = compress_level(level * 8 / 10);
                let prev = self.bars[i] as u64;
                let mixed = (prev * 7 + c * 3) / 10;
                let nv: u32 = if mixed < BAR_FLOOR as u64 {
                    BAR_FLOOR
                } else if mixed > BAR_CEIL as u64 {
                    BAR_CEIL
                } else {
                    mixed as u32
                };
                self.bars.set(i, nv);
            }
            i = i + 1;
        }
        assert(self@ =~= analyzed(before, bins@, sample_rate as nat));
    }

    /// One UI tick: while a track plays, an analysis of `bins` when a full
    /// window could be transformed (no change when it could not); while
    /// nothing plays, idle decay.
    pub fn tick(&mut self, playing: bool, bins: Option<&Vec<Bin>>, sample_rate: u32)
        requires
            old(self).wf(),
            bins matches Some(b) ==> b@.len() == HALF_BINS,
        ensures
            final(self).wf(),
            final(self)@ == if playing {
                match bins {
                    Some(b) => analyzed(old(self)@, b@, sample_rate as nat),
                    None => old(self)@,
                }
            } else {
                decayed(old(self)@)
            },
    {
        if playing {
            if let Some(b) = bins {
                self.analyze(b, sample_rate);
            }
        } else {
            self.decay();
        }
    }
}

/// Neither an analysis tick nor a decay tick moves a bar out of
/// `[BAR_FLOOR, BAR_CEIL]`, whatever the bins and the sample rate.
pub proof fn lemma_ticks_keep_range(prev: Seq<u32>, bins: Seq<Bin>, sample_rate: nat)
    requires
        bars_in_range(prev),
    ensures
        bars_in_range(analyzed(prev, bins, sample_rate)),
        bars_in_range(decayed(prev)),
{
    assert forall|i: int| 0 <= i < BAR_COUNT implies BAR_FLOOR <= #[trigger] analyzed(
        prev,
        bins,
        sample_rate,
    )[i] <= BAR_CEIL by {
        if band_count(i as nat, sample_rate) != 0 {
            let v = smooth(prev[i] as nat, shaped(band_level(bins, i as nat, sample_rate)));
            assert(BAR_FLOOR <= v <= BAR_CEIL);
        }
    }
    assert forall|i: int| 0 <= i < BAR_COUNT implies BAR_FLOOR <= #[trigger] decayed(prev)[i]
        <= BAR_CEIL by {
        let v = prev[i] as nat;
        assert(v * 9 / 10 <= v);
    }
}

/// Idle decay: one tick takes a bar in range to at most nine tenths of its
/// height, and never under the floor; after `v - BAR_FLOOR` ticks (or more)
/// a bar of height `v` rests on the floor, which decay leaves unchanged.
pub proof fn lemma_decay_settles(v: nat, k: nat)
    requires
        BAR_FLOOR <= v <= BAR_CEIL,
    ensures
        BAR_FLOOR <= decay_bar(v) <= v,
        v * 9 / 10 >= BAR_FLOOR ==> decay_bar(v) == v * 9 / 10,
        decay_bar(BAR_FLOOR as nat) == BAR_FLOOR,
        k >= v - BAR_FLOOR ==> decay_times(v, k) == BAR_FLOOR,
    decreases k,
{
    if k > 0 && v > BAR_FLOOR {
        assert(decay_bar(v) < v);
        lemma_decay_settles(decay_bar(v), (k - 1) as nat);
    } else if k > 0 {
        lemma_floor_stays((k - 1) as nat);
    }
}

proof fn lemma_floor_stays(k: nat)
    ensures
        decay_times(BAR_FLOOR as nat, k) == BAR_FLOOR,
    decreases k,
{
    if k > 0 {
        lemma_floor_stays((k - 1) as nat);
    }
}

proof fn lemma_bin_of_mono(f: nat, g: nat, sample_rate: nat)
    requires
        f <= g,
    ensures
        bin_of(f, sample_rate) <= bin_of(g, sample_rate),
{
    if sample_rate > 0 {
        vstd::arithmetic::div_mod::lemma_div_is_ordered(
            (f * 2048) as int,
            (g * 2048) as int,
            (sample_rate * 1000) as int,
        );
    }
}

/// Bands `j < k` end where band `k` starts or earlier.
proof fn lemma_bands_disjoint(j: nat, k: nat, sample_rate: nat)
    requires
        j < k < BAR_COUNT,
    ensures
        band_end(j, sample_rate) <= band_start(k, sample_rate),
{
    if j + 1 < k {
        lemma_edges_increase(j + 1, k);
    }
    lemma_bin_of_mono(edge_mhz(j + 1), edge_mhz(k), sample_rate);
}

/// `bins` holds energy in bin `b` alone.
pub open spec fn single_peak(bins: Seq<Bin>, b: int) -> bool {
    &&& 0 <= b < bins.len()
    &&& forall|i: int| 0 <= i < bins.len() && i != b ==> magnitude(#[trigger] bins[i]) == 0
}

proof fn lemma_sum_single(bins: Seq<Bin>, b: int, lo: int, hi: int)
    requires
        single_peak(bins, b),
        0 <= lo <= hi <= bins.len(),
    ensures
        mag_sum(bins, lo, hi) == if lo <= b < hi {
            magnitude(bins[b])
        } else {
            0
        },
    decreases hi - lo,
{
    if hi > lo {
        lemma_sum_single(bins, b, lo, hi - 1);
    }
}

proof fn lemma_peak_single(bins: Seq<Bin>, sample_rate: nat, k: nat, n: nat)
    requires
        forall|j: nat| j < BAR_COUNT && j != k ==> #[trigger] band_raw(bins, j, sample_rate) == 0,
        n <= BAR_COUNT,
    ensures
        peak_upto(bins, sample_rate, n) == if k < n {
            band_raw(bins, k, sample_rate)
        } else {
            0
        },
    decreases n,
{
    if n > 0 {
        lemma_peak_single(bins, sample_rate, k, (n - 1) as nat);
    }
}

/// A spectrum whose energy sits in one bin, inside band `k`, normalises to
/// full scale in band `k` and to zero in every other band, so band `k` is the
/// highest bar. (The bin must hold at least one unit of magnitude per bin of
/// its band, the resolution of a band's mean.)
pub proof fn lemma_single_peak_band(bins: Seq<Bin>, b: int, k: nat, sample_rate: nat)
    requires
        bins.len() == HALF_BINS,
        single_peak(bins, b),
        k < BAR_COUNT,
        band_start(k, sample_rate) <= b < band_end(k, sample_rate),
        magnitude(bins[b]) >= band_count(k, sample_rate),
    ensures
        band_level(bins, k, sample_rate) == FULL_SCALE,
        forall|j: nat| j < BAR_COUNT && j != k ==> #[trigger] band_level(bins, j, sample_rate) == 0,
{
    assert forall|j: nat| j < BAR_COUNT && j != k implies #[trigger] band_raw(bins, j, sample_rate) == 0 by {
        lemma_bins_ordered(j, sample_rate);
        if band_count(j, sample_rate) > 0 {
            if j < k {
                lemma_bands_disjoint(j, k, sample_rate);
            } else {
                lemma_bands_disjoint(k, j, sample_rate);
            }
            lemma_sum_single(
                bins,
                b,
                band_start(j, sample_rate) as int,
                band_end(j, sample_rate) as int,
            );
        }
    }
    lemma_bins_ordered(k, sample_rate);
    lemma_sum_single(bins, b, band_start(k, sample_rate) as int, band_end(k, sample_rate) as int);
    let c = band_count(k, sample_rate);
    let m = magnitude(bins[b]);
    assert(m / c >= 1) by (nonlinear_arith)
        requires
            m >= c,
            c > 0,
    ;
    lemma_peak_single(bins, sample_rate, k, BAR_COUNT as nat);
    let r = band_raw(bins, k, sample_rate);
    assert(r * 1000 / r == 1000) by (nonlinear_arith)
        requires
            r > 0,
    ;
}

} // verus!
