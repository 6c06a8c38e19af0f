use amm_batch_request::abi::AbiType;
use amm_batch_request::schema::pool_data_schema;
use amm_batch_request::tick::UniswapV3TickData;
use ethers::abi::ParamType;

fn outside(ty: &AbiType) -> ParamType {
    match ty {
        AbiType::Address => ParamType::Address,
        AbiType::Bytes => ParamType::Bytes,
        AbiType::Int(bits) => ParamType::Int(*bits),
        AbiType::Uint(bits) => ParamType::Uint(*bits),
        AbiType::Bool => ParamType::Bool,
        AbiType::String => ParamType::String,
        AbiType::Array(element) => ParamType::Array(Box::new(outside(element))),
        AbiType::FixedBytes(len) => ParamType::FixedBytes(*len),
        AbiType::FixedArray(element, len) => ParamType::FixedArray(Box::new(outside(element)), *len),
        AbiType::Tuple(fields) => ParamType::Tuple(fields.iter().map(outside).collect()),
    }
}

#[test]
fn response_is_one_array_of_ten_field_records() {
    let expected = vec![AbiType::Array(Box::new(AbiType::Tuple(vec![
        AbiType::Address,
        AbiType::Uint(8),
        AbiType::Address,
        AbiType::Uint(8),
        AbiType::Uint(128),
        AbiType::Uint(160),
        AbiType::Int(24),
        AbiType::Int(24),
        AbiType::Uint(24),
        AbiType::Int(128),
    ])))];
    assert_eq!(pool_data_schema(), expected);
}

#[test]
fn schema_has_the_signature_of_the_contract_interface() {
    let schema = pool_data_schema();
    assert_eq!(schema.len(), 1);
    assert_eq!(
        outside(&schema[0]).to_string(),
        "(address,uint8,address,uint8,uint128,uint160,int24,int24,uint24,int128)[]"
    );
}

#[test]
fn each_record_occupies_ten_words() {
    let schema = pool_data_schema();
    let mut data = vec![0u8; 64 + 320];
    data[31] = 0x20;
    data[63] = 1;
    let tokens = ethers::abi::decode(&[outside(&schema[0])], &data).unwrap();
    assert_eq!(tokens[0].clone().into_array().unwrap().len(), 1);
    data.pop();
    assert!(ethers::abi::decode(&[outside(&schema[0])], &data).is_err());
}

#[test]
fn tick_data_holds_its_three_fields() {
    let data = UniswapV3TickData { initialized: true, tick: -887_272, liquidity_net: i128::MIN };
    let copy = data;
    assert_eq!(copy, data);
    assert!(copy.initialized);
    assert_eq!(copy.tick, -887_272);
    assert_eq!(copy.liquidity_net, i128::MIN);
}
