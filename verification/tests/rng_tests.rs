//! Tests of the deterministic generator: the pinned draw sequence for a
//! fixed seed, and the [0,1) range of every draw.

use resim::rng::{Rng, BATCH, FRAC_ONE};

/// The exact double the external system derives from a draw: the 52 draw
/// bits become the mantissa of a double in [1,2), minus one.
fn to_f64(draw: u64) -> f64 {
    f64::from_bits(draw | 0x3FF0000000000000) - 1.0
}

#[test]
fn pinned_sequence_seed_1_2() {
    // Regression pin: the first 130 doubles for seed (1, 2). Any change to
    // the transform or to the batch-reversal consumption order breaks this.
    let expected: [f64; 130] = [
        0.5762542711988212, 0.7823108391220173, 0.15498906207644314, 0.8979949997950525, 0.2597902420959666,
        0.6374644061180612, 0.9676269395410331, 0.930710641095396, 0.41942470644799434, 0.012452784074852952,
        0.25418104673240927, 0.46029796821709246, 0.8799050848565166, 0.11641687590297511, 0.7863698256041727,
        0.5375140146790733, 0.994235961849113, 0.497658733500546, 0.9987277380649962, 0.42272674152195155,
        0.5089062535492475, 0.9701110227783458, 0.11467521231313027, 0.45591218103927567, 0.901315398196602,
        0.15553709392267767, 0.6724781306879355, 0.7771364809103642, 0.26075782258134894, 0.21912094772302537,
        0.531464689803028, 0.37970624171870115, 0.3546750191343593, 0.844191061280845, 0.08925444821622941,
        0.0812797369642213, 0.11872185601408813, 0.5123727961925637, 0.1784184802723472, 0.7091852552465883,
        0.1405783574396231, 0.00794059991668905, 0.1983388751738353, 0.6689204703733673, 0.049474308882259566,
        0.03134938309601787, 0.18546356811988884, 0.03671076060341871, 0.14112353429633373, 0.0952394256105904,
        0.016713883739514435, 0.5381175977615635, 0.5357366821899894, 0.03325426969834222, 0.03134209366380847,
        0.03128958145642935, 0.015629770242874708, 1.1926520571137189e-05, 7.631257361806476e-06, 7.62939595277956e-06,
        3.8146977205943955e-06, 1.3642420526593924e-12, 4.547473508864641e-13, 0.0, 0.8226371465163058,
        0.27852631252145676, 0.4138181192000161, 0.7095015770820055, 0.6486414048179951, 0.7437926147931746,
        0.16913642881428226, 0.7746450097381441, 0.5436336277784954, 0.5154002674786637, 0.6850690430628412,
        0.2095514653280368, 0.042675204649719856, 0.003454118813641438, 0.19940033230067056, 0.4655908666779245,
        0.5301511006196724, 0.3789452992022737, 0.6417596652160809, 0.4738284032871456, 0.9697014266725514,
        0.8815148327707862, 0.4731505367467912, 0.3770027123571513, 0.5519167878250983, 0.17761179839514507,
        0.5117256805492116, 0.7015876909364698, 0.6614140988263213, 0.9968134043266128, 0.26229466001828294,
        0.06892939549211019, 0.9997965905102391, 0.507444552932425, 0.7437421979567855, 0.06003179441200368,
        0.9942841900973312, 0.6564410151252857, 0.5209504160316589, 0.46683458743049155, 0.6357227938164751,
        0.6614002568770612, 0.3174360220660133, 0.7375120245252507, 0.5351418729143382, 0.5130920072178715,
        0.6325827438086336, 0.3102250610317554, 0.48477871087399604, 0.25501161172170383, 0.1815130799764073,
        0.7392774608427639, 0.07336932513670424, 0.30148337904990274, 0.8899618071499187, 0.6769567745356537,
        0.1385138546684228, 0.7266879324757953, 0.7732514573983635, 0.2323718390097267, 0.3925885679484955,
        0.1591899950227904, 0.05692282450464914, 0.6773997001452039, 0.3612462621477408, 0.23636699900174252,
    ];
    let mut rng = Rng::new(1, 2);
    for (i, &want) in expected.iter().enumerate() {
        let draw = rng.next();
        assert!(draw < FRAC_ONE);
        let got = to_f64(draw);
        assert_eq!(got, want, "draw {} differs", i);
    }
}

#[test]
fn draws_stay_in_unit_interval() {
    // 10,000 consecutive draws from several arbitrary non-zero seeds all
    // lie in [0,1).
    for &(s0, s1) in &[(1u64, 2u64), (99, 100), (0xDEADBEEF, 0xFEEDFACE), (u64::MAX, 1)] {
        let mut rng = Rng::new(s0, s1);
        for _ in 0..10_000 {
            let f = to_f64(rng.next());
            assert!((0.0..1.0).contains(&f));
        }
    }
}

#[test]
fn batch_is_consumed_in_reverse_generation_order() {
    // The first draw handed out is the last of the first batch of 64: the
    // buffer refills after exactly BATCH draws, never earlier.
    let mut rng = Rng::new(7, 11);
    for _ in 0..BATCH {
        rng.next();
    }
    assert_eq!(rng.cache.len(), 0);
    rng.next();
    assert_eq!(rng.cache.len(), BATCH - 1);
}

#[test]
fn duplicate_continues_identically() {
    let mut rng = Rng::new(5, 6);
    for _ in 0..10 {
        rng.next();
    }
    let mut copy = rng.duplicate();
    for _ in 0..200 {
        assert_eq!(rng.next(), copy.next());
    }
}
