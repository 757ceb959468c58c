//! Powers of the generator of the multiplicative group of the field.
//!
//! The powers that show that 31 has order `p - 1`, computed by repeated
//! squaring.

use crate::field::modulus;
use vstd::arithmetic::div_mod::{lemma_mul_mod_noop_general, lemma_small_mod};
use vstd::arithmetic::mul::lemma_mul_is_associative;
use vstd::prelude::*;

verus! {

/// The product of two residues.
pub open spec fn mm(x: int, y: int) -> int {
    (x * y) % modulus()
}

/// The power `31^k` as a residue.
pub open spec fn pw(k: nat) -> int
    decreases k,
{
    if k == 0 {
        1
    } else {
        mm(pw((k - 1) as nat), 31)
    }
}

/// The product of residues is associative.
pub proof fn lemma_mm_associative(x: int, y: int, z: int)
    ensures
        mm(mm(x, y), z) == mm(x, mm(y, z)),
{
    let p = modulus();
    lemma_mul_mod_noop_general(x * y, z, p);
    lemma_mul_mod_noop_general(x, y * z, p);
    lemma_mul_is_associative(x, y, z);
}

/// Every power of the generator is a residue.
pub proof fn lemma_pw_range(k: nat)
    ensures
        0 <= pw(k) < modulus(),
    decreases k,
{
    if k > 0 {
        lemma_pw_range((k - 1) as nat);
    }
}

/// The power of a sum is the product of the powers.
pub proof fn lemma_pw_add(a: nat, b: nat)
    ensures
        pw(a + b) == mm(pw(a), pw(b)),
    decreases b,
{
    lemma_pw_range(a);
    if b == 0 {
        assert(pw(a) * 1 == pw(a));
        lemma_small_mod(pw(a) as nat, modulus() as nat);
    } else {
        lemma_pw_add(a, (b - 1) as nat);
        lemma_mm_associative(pw(a), pw((b - 1) as nat), 31);
        assert(a + b - 1 == (a + b - 1) as nat);
        assert(pw(a + b) == mm(pw((a + b - 1) as nat), 31));
    }
}

/// One step of repeated squaring: if `31^e` is `x` and `x * x` is `y` as
/// residues, then `31^(2e)` is `y`.
proof fn lemma_square(e: nat, x: int, y: int)
    requires
        pw(e) == x,
        (x * x) % 2013265921 == y,
    ensures
        pw(2 * e) == y,
{
    lemma_pw_add(e, e);
}

/// One step of a product: if `31^a` is `x`, `31^b` is `y` and `x * y` is
/// `z` as residues, then `31^(a + b)` is `z`.
proof fn lemma_product(a: nat, b: nat, x: int, y: int, z: int)
    requires
        pw(a) == x,
        pw(b) == y,
        (x * y) % 2013265921 == z,
    ensures
        pw(a + b) == z,
{
    lemma_pw_add(a, b);
}

/// The first powers of the generator.
proof fn lemma_small_powers()
    ensures
        pw(3) == 29791,
        pw(5) == 28629151,
        pw(15) == 440564289,
{
    assert(pw(1) == 31) by {
        assert(pw(0) == 1);
        assert((1int * 31int) % 2013265921int == 31);
    }
    lemma_product(1, 1, 31, 31, 961);
    lemma_product(2, 1, 961, 31, 29791);
    lemma_product(3, 2, 29791, 961, 28629151);
    lemma_product(5, 5, 28629151, 28629151, 1558084728);
    lemma_product(10, 5, 1558084728, 28629151, 440564289);
}

/// The generator to the power `(p - 1) / 2` is not one.
pub proof fn lemma_power_half()
    ensures
        pw(1006632960) == 2013265920,
{
    lemma_small_powers();
    lemma_square(15, 440564289, 975630072);
    lemma_square(30, 975630072, 1149491290);
    lemma_square(60, 1149491290, 1003846038);
    lemma_square(120, 1003846038, 1267047229);
    lemma_square(240, 1267047229, 570250684);
    lemma_square(480, 570250684, 414040701);
    lemma_square(960, 414040701, 195061667);
    lemma_square(1920, 195061667, 1049899240);
    lemma_square(3840, 1049899240, 1559589183);
    lemma_square(7680, 1559589183, 1286330022);
    lemma_square(15360, 1286330022, 1421947380);
    lemma_square(30720, 1421947380, 2009781145);
    lemma_square(61440, 2009781145, 1657000625);
    lemma_square(122880, 1657000625, 298008106);
    lemma_square(245760, 298008106, 1282623253);
    lemma_square(491520, 1282623253, 1340477990);
    lemma_square(983040, 1340477990, 341742893);
    lemma_square(1966080, 341742893, 1753498361);
    lemma_square(3932160, 1753498361, 1732600167);
    lemma_square(7864320, 1732600167, 397765732);
    lemma_square(15728640, 397765732, 1721589904);
    lemma_square(31457280, 1721589904, 760005850);
    lemma_square(62914560, 760005850, 196396260);
    lemma_square(125829120, 196396260, 1592366214);
    lemma_square(251658240, 1592366214, 1728404513);
    lemma_square(503316480, 1728404513, 2013265920);
}

/// The generator to the power `p - 1` is one.
pub proof fn lemma_power_full()
    ensures
        pw(2013265920) == 1,
{
    lemma_power_half();
    lemma_square(1006632960, 2013265920, 1);
}

/// The generator to the power `(p - 1) / 3` is not one.
pub proof fn lemma_power_third()
    ensures
        pw(671088640) == 1314723123,
{
    lemma_small_powers();
    lemma_square(5, 28629151, 1558084728);
    lemma_square(10, 1558084728, 1422208504);
    lemma_square(20, 1422208504, 1678705229);
    lemma_square(40, 1678705229, 1771892767);
    lemma_square(80, 1771892767, 940487245);
    lemma_square(160, 940487245, 1516982208);
    lemma_square(320, 1516982208, 792115306);
    lemma_square(640, 792115306, 452791590);
    lemma_square(1280, 452791590, 1605829134);
    lemma_square(2560, 1605829134, 2008025366);
    lemma_square(5120, 2008025366, 456279664);
    lemma_square(10240, 456279664, 1492617483);
    lemma_square(20480, 1492617483, 1252078097);
    lemma_square(40960, 1252078097, 12770214);
    lemma_square(81920, 12770214, 1812738875);
    lemma_square(163840, 1812738875, 1048536409);
    lemma_square(327680, 1048536409, 434152628);
    lemma_square(655360, 434152628, 1734511292);
    lemma_square(1310720, 1734511292, 839726776);
    lemma_square(2621440, 839726776, 629262984);
    lemma_square(5242880, 629262984, 1502726565);
    lemma_square(10485760, 1502726565, 48459945);
    lemma_square(20971520, 48459945, 288916259);
    lemma_square(41943040, 288916259, 503591070);
    lemma_square(83886080, 503591070, 782862608);
    lemma_square(167772160, 782862608, 1314723124);
    lemma_square(335544320, 1314723124, 1314723123);
}

/// The generator to the power `(p - 1) / 5` is not one.
pub proof fn lemma_power_fifth()
    ensures
        pw(402653184) == 645581151,
{
    lemma_small_powers();
    lemma_square(3, 29791, 887503681);
    lemma_square(6, 887503681, 1462844305);
    lemma_square(12, 1462844305, 839089552);
    lemma_square(24, 839089552, 1646113519);
    lemma_square(48, 1646113519, 989735200);
    lemma_square(96, 989735200, 354087134);
    lemma_square(192, 354087134, 939704260);
    lemma_square(384, 939704260, 210852613);
    lemma_square(768, 210852613, 1924503713);
    lemma_square(1536, 1924503713, 620932417);
    lemma_square(3072, 620932417, 953858903);
    lemma_square(6144, 953858903, 911499372);
    lemma_square(12288, 911499372, 1788359951);
    lemma_square(24576, 1788359951, 1109355884);
    lemma_square(49152, 1109355884, 712883858);
    lemma_square(98304, 712883858, 1634029288);
    lemma_square(196608, 1634029288, 475368472);
    lemma_square(393216, 475368472, 233410736);
    lemma_square(786432, 233410736, 1351192264);
    lemma_square(1572864, 1351192264, 1537548338);
    lemma_square(3145728, 1537548338, 981668758);
    lemma_square(6291456, 981668758, 410767134);
    lemma_square(12582912, 410767134, 1902556399);
    lemma_square(25165824, 1902556399, 422226006);
    lemma_square(50331648, 422226006, 161600065);
    lemma_square(100663296, 161600065, 1403701133);
    lemma_square(201326592, 1403701133, 645581151);
}

} // verus!
