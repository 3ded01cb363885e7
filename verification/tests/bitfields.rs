use rfcore::rfc_commands::{RfcCondition, RfcSetupConfig, RfcTrigger};

#[test]
fn condition_rule_and_skip() {
    let mut cond = RfcCondition(0);
    cond.set_rule(0x01);
    assert_eq!(cond.0, 0x01);
    assert_eq!(cond._rule(), 1);
    assert_eq!(cond._skip(), 0);
    cond._set_skip(0x0A);
    assert_eq!(cond.0, 0xA1);
    assert_eq!(cond._skip(), 0x0A);
    assert_eq!(cond._rule(), 1);
    cond.set_rule(0xFE);
    assert_eq!(cond.0, 0xAE);
    cond._set_skip(0x13);
    assert_eq!(cond.0, 0x3E);
}

#[test]
fn condition_getters_cut_out_their_bits() {
    let cond = RfcCondition(0xC5);
    assert_eq!(cond._rule(), 0x05);
    assert_eq!(cond._skip(), 0x0C);
}

#[test]
fn trigger_fields() {
    let mut trigger = RfcTrigger(0);
    trigger._set_trigger_type(0x0B);
    assert_eq!(trigger.0, 0x0B);
    trigger._set_enable_cmd(true);
    assert_eq!(trigger.0, 0x1B);
    trigger._set_trigger_no(0x02);
    assert_eq!(trigger.0, 0x5B);
    trigger._set_past_trigger(true);
    assert_eq!(trigger.0, 0xDB);
    assert_eq!(trigger._trigger_type(), 0x0B);
    assert!(trigger._enable_cmd());
    assert_eq!(trigger._trigger_no(), 0x02);
    assert!(trigger._past_trigger());
    trigger._set_enable_cmd(false);
    assert_eq!(trigger.0, 0xCB);
    assert!(!trigger._enable_cmd());
    trigger._set_past_trigger(false);
    assert_eq!(trigger.0, 0x4B);
    assert!(!trigger._past_trigger());
    trigger._set_trigger_no(0xFF);
    assert_eq!(trigger.0, 0x6B);
    assert_eq!(trigger._trigger_no(), 0x03);
    trigger._set_trigger_type(0xF0);
    assert_eq!(trigger.0, 0x60);
    assert_eq!(trigger._trigger_type(), 0);
}

#[test]
fn setup_config_fields() {
    let mut cfg = RfcSetupConfig(0);
    cfg.set_frontend_mode(0);
    cfg.set_bias_mode(false);
    assert_eq!(cfg.0, 0);
    cfg.set_frontend_mode(0x05);
    assert_eq!(cfg.0, 0x0005);
    cfg.set_bias_mode(true);
    assert_eq!(cfg.0, 0x000D);
    cfg._set_analog_config_mode(0x2D);
    assert_eq!(cfg.0, 0x02DD);
    cfg._set_no_fs_powerup(true);
    assert_eq!(cfg.0, 0x06DD);
    assert_eq!(cfg._frontend_mode(), 0x05);
    assert!(cfg._bias_mode());
    assert_eq!(cfg._analog_cfg_mode(), 0x2D);
    assert!(cfg._no_fs_powerup());
    cfg.set_bias_mode(false);
    assert_eq!(cfg.0, 0x06D5);
    assert!(!cfg._bias_mode());
    cfg._set_no_fs_powerup(false);
    assert_eq!(cfg.0, 0x02D5);
    assert!(!cfg._no_fs_powerup());
    cfg.set_frontend_mode(0xFFF8);
    assert_eq!(cfg.0, 0x02D0);
    cfg._set_analog_config_mode(0xFFC0);
    assert_eq!(cfg.0, 0x0000);
}

#[test]
fn setup_config_getters_ignore_foreign_bits() {
    let cfg = RfcSetupConfig(0xF800);
    assert_eq!(cfg._frontend_mode(), 0);
    assert!(!cfg._bias_mode());
    assert_eq!(cfg._analog_cfg_mode(), 0);
    assert!(!cfg._no_fs_powerup());
    let all = RfcSetupConfig(0xFFFF);
    assert_eq!(all._frontend_mode(), 0x07);
    assert_eq!(all._analog_cfg_mode(), 0x3F);
    assert!(all._bias_mode());
    assert!(all._no_fs_powerup());
}
