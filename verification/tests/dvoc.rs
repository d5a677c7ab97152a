use fixed::types::I16F16;
use unifi_gfm::fixed_point::Fxd;
use unifi_gfm::gfm::{build_default_dvoc_controller, build_dvoc_controller_from_flt};

fn fx_of(x: f32) -> Fxd {
    Fxd::from_bits(I16F16::from_num(x).to_bits())
}

fn to_fixed(x: Fxd) -> I16F16 {
    I16F16::from_bits(x.to_bits())
}

#[test]
fn test_dvoc_params() {
    let v_nom: f32 = 80.;
    let f_nom: f32 = 60.;
    let xi: f32 = 15.;
    let c: f32 = 0.2679;
    let dvoc = build_dvoc_controller_from_flt(fx_of(v_nom), fx_of(f_nom), fx_of(xi), fx_of(c));
    assert_eq!(to_fixed(dvoc.v_nom), v_nom);
    assert_eq!(to_fixed(dvoc.f_nom), f_nom);
}

#[test]
fn test_default_dvoc() {
    let v_nom = 80.;
    let f_nom = 60.;
    let dvoc = build_default_dvoc_controller(
        Fxd::from_bits(I16F16::from_num(v_nom).to_bits()),
        Fxd::from_bits(I16F16::from_num(f_nom).to_bits()),
    );
    assert_eq!(to_fixed(dvoc.v_nom), v_nom);
}
