use wallet::cli::{
    batches, endpoint_url, expect_env_var, get_hsm_pin, parse_user_id, parse_user_ids,
    parse_wallet_id, CreateWalletArgs, InstallWalletArgs, SetControllerWalletArgs, TopUpArgs,
};
use wallet::custodians::CustodianSet;
use wallet::identity::Identity;

fn id(bytes: &[u8]) -> Identity {
    Identity::from_slice(bytes).unwrap()
}

fn create_args() -> CreateWalletArgs {
    CreateWalletArgs {
        user_ids_path: "user_ids_example.txt".to_string(),
        cycles: 100000000000000,
        wasm_path: "wallet.wasm".to_string(),
        endpoint: "10.11.26.1:8080".to_string(),
        out: "out.txt".to_string(),
        batch_size: 8,
    }
}

#[test]
fn arguments_are_handed_out() {
    let args = create_args();
    assert_eq!(args.cycles(), 100000000000000);
    assert_eq!(args.endpoint(), "10.11.26.1:8080");
    assert_eq!(args.out(), "out.txt");
    assert_eq!(args.batch_size(), 8);
    let install = InstallWalletArgs {
        wallet_id: "aaaaa-aa".to_string(),
        wasm_path: "w.wasm".to_string(),
        endpoint: "sodium".to_string(),
    };
    assert_eq!(install.endpoint(), "sodium");
    let set = SetControllerWalletArgs {
        wallet_id: "aaaaa-aa".to_string(),
        user_id: "2vxsx-fae".to_string(),
        endpoint: "mercury".to_string(),
    };
    assert_eq!(set.endpoint(), "mercury");
    assert_eq!(set.user_id(), Ok(Identity::anonymous()));
    let top = TopUpArgs { wallet_id: "aaaaa-aa".to_string(), cycles: 5, endpoint: "e".to_string() };
    assert_eq!(top.cycles(), 5);
    assert_eq!(top.endpoint(), "e");
}

#[test]
fn endpoints() {
    assert_eq!(endpoint_url(&"sodium".to_string()), "https://gw.dfinity.network");
    assert_eq!(endpoint_url(&"mercury".to_string()), "https://mercury.dfinity.network");
    assert_eq!(endpoint_url(&"10.11.26.1:8080".to_string()), "http://10.11.26.1:8080");
    assert_eq!(endpoint_url(&"Sodium".to_string()), "http://Sodium");
}

#[test]
fn missing_settings() {
    assert_eq!(expect_env_var("HSM_KEY_ID", Some("abc".to_string())), Ok("abc".to_string()));
    assert_eq!(
        expect_env_var("HSM_KEY_ID", None),
        Err("Need to specify the HSM_KEY_ID environment variable".to_string())
    );
    assert_eq!(get_hsm_pin(Some("1234".to_string())), Ok("1234".to_string()));
    assert_eq!(
        get_hsm_pin(None),
        Err("Need to specify the HSM_PIN environment variable".to_string())
    );
}

#[test]
fn users_are_split_into_batches() {
    let users: Vec<Identity> = (0..7u8).map(|n| id(&[n])).collect();
    let split = batches(&users, 3);
    assert_eq!(split, vec![users[0..3].to_vec(), users[3..6].to_vec(), users[6..7].to_vec()]);
    assert_eq!(batches(&users, 7), vec![users.clone()]);
    assert_eq!(batches(&users, 100), vec![users.clone()]);
    assert_eq!(batches(&users, 1).len(), 7);
    assert_eq!(batches(&Vec::new(), 3), Vec::<Vec<Identity>>::new());
}

#[test]
fn user_ids_are_read_line_by_line() {
    assert_eq!(
        parse_user_ids("aaaaa-aa\n2vxsx-fae\r\n2chl6-4hpzw-vqaaa-aaaaa-c"),
        Ok(vec![
            Identity::management_canister(),
            Identity::anonymous(),
            id(&[0xef, 0xcd, 0xab, 0, 0, 0, 0, 0, 1]),
        ])
    );
    assert_eq!(parse_user_ids(""), Ok(vec![]));
    assert_eq!(create_args().user_ids("2vxsx-fae\n"), Ok(vec![Identity::anonymous()]));
    assert_eq!(
        parse_user_ids("2vxsx-fae\naaaa\nnot a principal!\n"),
        Err("Invalid user id `aaaa`: Text is too short.".to_string())
    );
}

#[test]
fn ids_that_name_nothing() {
    assert_eq!(
        parse_user_id("not a principal!"),
        Err("Invalid user id `not a principal!`: Text must be in valid Base32 encoding."
            .to_string())
    );
    assert_eq!(parse_wallet_id("2vxsx-fae"), Ok(Identity::anonymous()));
    assert_eq!(
        parse_wallet_id("aaaa"),
        Err("Invalid wallet id `aaaa`: Text is too short.".to_string())
    );
}

#[test]
fn custodian_set() {
    let a = id(&[1]);
    let b = id(&[2]);
    let mut set = CustodianSet::default();
    assert_eq!(*set.get_controller(), Identity::management_canister());
    assert!(set.is_controller(&Identity::management_canister()));
    assert!(set.is_custodian(&Identity::management_canister()));
    assert!(!set.is_custodian(&a));
    set.add_custodian(a);
    set.add_custodian(b);
    set.add_custodian(a);
    assert_eq!(set.custodians(), vec![a, b]);
    assert!(set.is_custodian(&a));
    set.remove_custodian(a);
    assert!(!set.is_custodian(&a));
    assert_eq!(set.custodians(), vec![b]);
    set.remove_custodian(a);
    set.set_controller(a);
    assert!(set.is_controller(&a));
    assert!(set.is_custodian(&a));
    assert!(!set.is_controller(&Identity::management_canister()));
    assert!(!set.is_custodian(&Identity::management_canister()));
    assert_eq!(*set.get_controller(), a);
}
