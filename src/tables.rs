//! The build's configuration as data: the attribute allow-list, the extern
//! bindings of each dependent namespace, and the three namespace configs.
use vstd::prelude::*;
use vstd::string::StringExecFns;
use crate::model::{
    AttributeRule, BindingView, Capabilities, ExternBinding, NamespaceConfig, NamespaceId,
    RuleView, ConfigView,
};

verus! {

pub open spec fn map_key_only() -> Capabilities {
    Capabilities { map_key: true, serialization: false }
}

pub open spec fn serialization_only() -> Capabilities {
    Capabilities { map_key: false, serialization: true }
}

/// A binding under the same name on both sides.
pub open spec fn same_name(name: Seq<char>, rust_path: Seq<char>) -> BindingView {
    BindingView { local_name: name, upstream_name: name, rust_path }
}

/// The attribute allow-list.
pub open spec fn attribute_table() -> Seq<RuleView> {
    seq![
        RuleView { target_type: "proto.Key"@, capabilities: map_key_only() },
        RuleView { target_type: "proto.Key.key"@, capabilities: map_key_only() },
        RuleView { target_type: "proto.KeyList"@, capabilities: map_key_only() },
        RuleView { target_type: "proto.ThresholdKey"@, capabilities: map_key_only() },
        RuleView { target_type: "proto.TransactionID"@, capabilities: map_key_only() },
        RuleView { target_type: "proto.AccountID"@, capabilities: map_key_only() },
        RuleView { target_type: "proto.AccountID.account"@, capabilities: map_key_only() },
        RuleView { target_type: "proto.Timestamp"@, capabilities: map_key_only() },
        RuleView { target_type: "proto.ContractID"@, capabilities: map_key_only() },
        RuleView { target_type: "proto.ContractID.contract"@, capabilities: map_key_only() },
        RuleView { target_type: "proto.ResponseCodeEnum"@, capabilities: serialization_only() },
    ]
}

/// What the mirror namespace takes from the primary one.
pub open spec fn mirror_table() -> Seq<BindingView> {
    seq![
        same_name("proto.Timestamp"@, "crate::services::Timestamp"@),
        same_name("proto.TopicID"@, "crate::services::TopicId"@),
        same_name("proto.ConsensusMessageChunkInfo"@, "crate::services::ConsensusMessageChunkInfo"@),
    ]
}

/// What the streams namespace takes from the primary one.
pub open spec fn streams_table() -> Seq<BindingView> {
    seq![
        same_name("proto.Fraction"@, "crate::services::Fraction"@),
        same_name("proto.Timestamp"@, "crate::services::Timestamp"@),
        same_name("proto.AccountID"@, "crate::services::AccountId"@),
        same_name("proto.TokenID"@, "crate::services::TokenId"@),
        same_name("proto.AccountAmount"@, "crate::services::AccountAmount"@),
        same_name("proto.CurrentAndNextFeeSchedule"@, "crate::services::CurrentAndNextFeeSchedule"@),
        same_name("proto.FeeComponents"@, "crate::services::FeeComponents"@),
        same_name("proto.FeeData"@, "crate::services::FeeData"@),
        same_name("proto.FeeSchedule"@, "crate::services::FeeSchedule"@),
        same_name("proto.Key"@, "crate::services::Key"@),
        same_name("proto.FileID"@, "crate::services::FileId"@),
        same_name("proto.KeyList"@, "crate::services::KeyList"@),
        same_name("proto.NftTransfer"@, "crate::services::NftTransfer"@),
        same_name("proto.NodeAddress"@, "crate::services::NodeAddress"@),
        same_name("proto.NodeAddressBook"@, "crate::services::NodeAddressBook"@),
        same_name("proto.RealmID"@, "crate::services::RealmId"@),
        same_name("proto.ScheduleID"@, "crate::services::ScheduleId"@),
        same_name("proto.SemanticVersion"@, "crate::services::SemanticVersion"@),
        same_name("proto.ServiceEndpoint"@, "crate::services::ServiceEndpoint"@),
        same_name("proto.ServicesConfigurationList"@, "crate::services::ServicesConfigurationList"@),
        same_name("proto.Setting"@, "crate::services::Setting"@),
        same_name("proto.ShardID"@, "crate::services::ShardId"@),
        same_name("proto.Signature"@, "crate::services::Signature"@),
        same_name("proto.SignatureList"@, "crate::services::SignatureList"@),
        same_name("proto.SignatureMap"@, "crate::services::SignatureMap"@),
        same_name("proto.SignaturePair"@, "crate::services::SignaturePair"@),
        same_name("proto.ThresholdKey"@, "crate::services::ThresholdKey"@),
        same_name("proto.ThresholdSignature"@, "crate::services::ThresholdSignature"@),
        same_name("proto.TimestampSeconds"@, "crate::services::TimestampSeconds"@),
        same_name("proto.TokenBalance"@, "crate::services::TokenBalance"@),
        same_name("proto.TokenBalances"@, "crate::services::TokenBalances"@),
        same_name("proto.TokenRelationship"@, "crate::services::TokenRelationship"@),
        same_name("proto.TokenTransferList"@, "crate::services::TokenTransferList"@),
        same_name("proto.TopicID"@, "crate::services::TopicId"@),
        same_name("proto.TransactionFeeSchedule"@, "crate::services::TransactionFeeSchedule"@),
        same_name("proto.TransactionID"@, "crate::services::TransactionId"@),
        same_name("proto.TransferList"@, "crate::services::TransferList"@),
        same_name("proto.HederaFunctionality"@, "crate::services::HederaFunctionality"@),
        same_name("proto.SubType"@, "crate::services::SubType"@),
        same_name("proto.TokenFreezeStatus"@, "crate::services::TokenFreezeStatus"@),
        same_name("proto.TokenKycStatus"@, "crate::services::TokenKycStatus"@),
        same_name("proto.TokenSupplyType"@, "crate::services::TokenSupplyType"@),
        same_name("proto.TokenType"@, "crate::services::TokenType"@),
        same_name("proto.ContractID"@, "crate::services::ContractId"@),
        same_name("proto.Transaction"@, "crate::services::Transaction"@),
        same_name("proto.TransactionRecord"@, "crate::services::TransactionRecord"@),
    ]
}

fn grant(rules: &mut Vec<AttributeRule>, name: &str, capabilities: Capabilities)
    ensures
        final(rules)@.len() == old(rules)@.len() + 1,
        forall|i: int| 0 <= i < old(rules)@.len() ==> #[trigger] final(rules)@[i] == old(rules)@[i],
        final(rules)@.last()@ == (RuleView { target_type: name@, capabilities }),
{
    rules.push(AttributeRule { target_type: String::from_str(name), capabilities });
}

fn bind(bindings: &mut Vec<ExternBinding>, name: &str, rust_path: &str)
    ensures
        final(bindings)@.len() == old(bindings)@.len() + 1,
        forall|i: int|
            0 <= i < old(bindings)@.len() ==> #[trigger] final(bindings)@[i] == old(bindings)@[i],
        final(bindings)@.last()@ == (BindingView {
            local_name: name@,
            upstream_name: name@,
            rust_path: rust_path@,
        }),
{
    bindings.push(
        ExternBinding {
            local_name: String::from_str(name),
            upstream_name: String::from_str(name),
            rust_path: String::from_str(rust_path),
        },
    );
}

/// The allow-list: the types that key maps downstream get equality and
/// hashing; the response code enum gets serialization, which the feature
/// gate decides on.
pub fn attribute_rules() -> (r: Vec<AttributeRule>)
    ensures
        r@.map_values(|x: AttributeRule| x@) == attribute_table(),
{
    let key = Capabilities { map_key: true, serialization: false };
    let mut r: Vec<AttributeRule> = Vec::new();
    grant(&mut r, "proto.Key", key);
    grant(&mut r, "proto.Key.key", key);
    grant(&mut r, "proto.KeyList", key);
    grant(&mut r, "proto.ThresholdKey", key);
    grant(&mut r, "proto.TransactionID", key);
    grant(&mut r, "proto.AccountID", key);
    grant(&mut r, "proto.AccountID.account", key);
    grant(&mut r, "proto.Timestamp", key);
    grant(&mut r, "proto.ContractID", key);
    grant(&mut r, "proto.ContractID.contract", key);
    grant(&mut r, "proto.ResponseCodeEnum", Capabilities { map_key: false, serialization: true });
    assert(r@.map_values(|x: AttributeRule| x@) =~= attribute_table());
    r
}

/// The primary types that the mirror namespace refers to instead of
/// generating them again.
pub fn mirror_bindings() -> (r: Vec<ExternBinding>)
    ensures
        r@.map_values(|x: ExternBinding| x@) == mirror_table(),
{
    let mut r: Vec<ExternBinding> = Vec::new();
    bind(&mut r, "proto.Timestamp", "crate::services::Timestamp");
    bind(&mut r, "proto.TopicID", "crate::services::TopicId");
    bind(&mut r, "proto.ConsensusMessageChunkInfo", "crate::services::ConsensusMessageChunkInfo");
    assert(r@.map_values(|x: ExternBinding| x@) =~= mirror_table());
    r
}

/// The primary types that the streams namespace refers to instead of
/// generating them again.
pub fn streams_bindings() -> (r: Vec<ExternBinding>)
    ensures
        r@.map_values(|x: ExternBinding| x@) == streams_table(),
{
    let mut r: Vec<ExternBinding> = Vec::new();
    bind(&mut r, "proto.Fraction", "crate::services::Fraction");
    bind(&mut r, "proto.Timestamp", "crate::services::Timestamp");
    bind(&mut r, "proto.AccountID", "crate::services::AccountId");
    bind(&mut r, "proto.TokenID", "crate::services::TokenId");
    bind(&mut r, "proto.AccountAmount", "crate::services::AccountAmount");
    bind(&mut r, "proto.CurrentAndNextFeeSchedule", "crate::services::CurrentAndNextFeeSchedule");
    bind(&mut r, "proto.FeeComponents", "crate::services::FeeComponents");
    bind(&mut r, "proto.FeeData", "crate::services::FeeData");
    bind(&mut r, "proto.FeeSchedule", "crate::services::FeeSchedule");
    bind(&mut r, "proto.Key", "crate::services::Key");
    bind(&mut r, "proto.FileID", "crate::services::FileId");
    bind(&mut r, "proto.KeyList", "crate::services::KeyList");
    bind(&mut r, "proto.NftTransfer", "crate::services::NftTransfer");
    bind(&mut r, "proto.NodeAddress", "crate::services::NodeAddress");
    bind(&mut r, "proto.NodeAddressBook", "crate::services::NodeAddressBook");
    bind(&mut r, "proto.RealmID", "crate::services::RealmId");
    bind(&mut r, "proto.ScheduleID", "crate::services::ScheduleId");
    bind(&mut r, "proto.SemanticVersion", "crate::services::SemanticVersion");
    bind(&mut r, "proto.ServiceEndpoint", "crate::services::ServiceEndpoint");
    bind(&mut r, "proto.ServicesConfigurationList", "crate::services::ServicesConfigurationList");
    bind(&mut r, "proto.Setting", "crate::services::Setting");
    bind(&mut r, "proto.ShardID", "crate::services::ShardId");
    bind(&mut r, "proto.Signature", "crate::services::Signature");
    bind(&mut r, "proto.SignatureList", "crate::services::SignatureList");
    bind(&mut r, "proto.SignatureMap", "crate::services::SignatureMap");
    bind(&mut r, "proto.SignaturePair", "crate::services::SignaturePair");
    bind(&mut r, "proto.ThresholdKey", "crate::services::ThresholdKey");
    bind(&mut r, "proto.ThresholdSignature", "crate::services::ThresholdSignature");
    bind(&mut r, "proto.TimestampSeconds", "crate::services::TimestampSeconds");
    bind(&mut r, "proto.TokenBalance", "crate::services::TokenBalance");
    bind(&mut r, "proto.TokenBalances", "crate::services::TokenBalances");
    bind(&mut r, "proto.TokenRelationship", "crate::services::TokenRelationship");
    bind(&mut r, "proto.TokenTransferList", "crate::services::TokenTransferList");
    bind(&mut r, "proto.TopicID", "crate::services::TopicId");
    bind(&mut r, "proto.TransactionFeeSchedule", "crate::services::TransactionFeeSchedule");
    bind(&mut r, "proto.TransactionID", "crate::services::TransactionId");
    bind(&mut r, "proto.TransferList", "crate::services::TransferList");
    bind(&mut r, "proto.HederaFunctionality", "crate::services::HederaFunctionality");
    bind(&mut r, "proto.SubType", "crate::services::SubType");
    bind(&mut r, "proto.TokenFreezeStatus", "crate::services::TokenFreezeStatus");
    bind(&mut r, "proto.TokenKycStatus", "crate::services::TokenKycStatus");
    bind(&mut r, "proto.TokenSupplyType", "crate::services::TokenSupplyType");
    bind(&mut r, "proto.TokenType", "crate::services::TokenType");
    bind(&mut r, "proto.ContractID", "crate::services::ContractId");
    bind(&mut r, "proto.Transaction", "crate::services::Transaction");
    bind(&mut r, "proto.TransactionRecord", "crate::services::TransactionRecord");
    assert(r@.map_values(|x: ExternBinding| x@) =~= streams_table());
    r
}

/// The output directory of each namespace, under the build's output root.
pub open spec fn out_dir_of(root: Seq<char>, id: NamespaceId) -> Seq<char> {
    match id {
        NamespaceId::Primary => root + "/services"@,
        NamespaceId::Mirror => root + "/mirror"@,
        NamespaceId::Streams => root + "/streams"@,
    }
}

/// The primary namespace: no upstream, the allow-list, client and server stubs.
pub open spec fn primary_view(root: Seq<char>) -> ConfigView {
    ConfigView {
        id: NamespaceId::Primary,
        out_dir: out_dir_of(root, NamespaceId::Primary),
        upstream: None,
        rules: attribute_table(),
        bindings: Seq::empty(),
        emit_stubs: true,
        server_stubs: true,
    }
}

/// The mirror namespace: bound to the primary one, client and server stubs.
pub open spec fn mirror_view(root: Seq<char>) -> ConfigView {
    ConfigView {
        id: NamespaceId::Mirror,
        out_dir: out_dir_of(root, NamespaceId::Mirror),
        upstream: Some(NamespaceId::Primary),
        rules: Seq::empty(),
        bindings: mirror_table(),
        emit_stubs: true,
        server_stubs: true,
    }
}

/// The streams namespace: bound to the primary one, types only.
pub open spec fn streams_view(root: Seq<char>) -> ConfigView {
    ConfigView {
        id: NamespaceId::Streams,
        out_dir: out_dir_of(root, NamespaceId::Streams),
        upstream: Some(NamespaceId::Primary),
        rules: Seq::empty(),
        bindings: streams_table(),
        emit_stubs: false,
        server_stubs: false,
    }
}

pub fn primary_config(out_root: &String) -> (c: NamespaceConfig)
    ensures
        c@ == primary_view(out_root@),
{
    let rules: Vec<AttributeRule> = attribute_rules();
    let bindings: Vec<ExternBinding> = Vec::new();
    let c = NamespaceConfig {
        id: NamespaceId::Primary,
        out_dir: out_root.clone().concat("/services"),
        upstream: None,
        rules,
        bindings,
        emit_stubs: true,
        server_stubs: true,
    };
    assert(c@.rules =~= primary_view(out_root@).rules);
    assert(c@.bindings =~= primary_view(out_root@).bindings);
    c
}

pub fn mirror_config(out_root: &String) -> (c: NamespaceConfig)
    ensures
        c@ == mirror_view(out_root@),
{
    let rules: Vec<AttributeRule> = Vec::new();
    let bindings: Vec<ExternBinding> = mirror_bindings();
    let c = NamespaceConfig {
        id: NamespaceId::Mirror,
        out_dir: out_root.clone().concat("/mirror"),
        upstream: Some(NamespaceId::Primary),
        rules,
        bindings,
        emit_stubs: true,
        server_stubs: true,
    };
    assert(c@.rules =~= mirror_view(out_root@).rules);
    assert(c@.bindings =~= mirror_view(out_root@).bindings);
    c
}

pub fn streams_config(out_root: &String) -> (c: NamespaceConfig)
    ensures
        c@ == streams_view(out_root@),
{
    let rules: Vec<AttributeRule> = Vec::new();
    let bindings: Vec<ExternBinding> = streams_bindings();
    let c = NamespaceConfig {
        id: NamespaceId::Streams,
        out_dir: out_root.clone().concat("/streams"),
        upstream: Some(NamespaceId::Primary),
        rules,
        bindings,
        emit_stubs: false,
        server_stubs: false,
    };
    assert(c@.rules =~= streams_view(out_root@).rules);
    assert(c@.bindings =~= streams_view(out_root@).bindings);
    c
}

/// The fixed schema entrypoints of the mirror namespace, under the schema root.
pub open spec fn mirror_entry_table() -> Seq<Seq<char>> {
    seq!["mirror/consensus_service.proto"@]
}

/// The fixed schema entrypoints of the streams namespace, under the schema root.
pub open spec fn streams_entry_table() -> Seq<Seq<char>> {
    seq![
        "streams/account_balance_file.proto"@,
        "streams/contract_action.proto"@,
        "streams/contract_bytecode.proto"@,
        "streams/contract_state_change.proto"@,
        "streams/hash_object.proto"@,
        "streams/record_stream_file.proto"@,
        "streams/sidecar_file.proto"@,
        "streams/signature_file.proto"@,
    ]
}

fn entry(v: &mut Vec<String>, path: &str)
    ensures
        final(v)@.map_values(|s: String| s@) == old(v)@.map_values(|s: String| s@).push(path@),
{
    let ghost before = v@;
    v.push(String::from_str(path));
    assert(v@.map_values(|s: String| s@) =~= before.map_values(|s: String| s@).push(path@));
}

pub fn mirror_entrypoints() -> (r: Vec<String>)
    ensures
        r@.map_values(|s: String| s@) == mirror_entry_table(),
{
    let mut r: Vec<String> = Vec::new();
    assert(r@.map_values(|s: String| s@) =~= Seq::<Seq<char>>::empty());
    entry(&mut r, "mirror/consensus_service.proto");
    assert(r@.map_values(|s: String| s@) =~= mirror_entry_table());
    r
}

pub fn streams_entrypoints() -> (r: Vec<String>)
    ensures
        r@.map_values(|s: String| s@) == streams_entry_table(),
{
    let mut r: Vec<String> = Vec::new();
    assert(r@.map_values(|s: String| s@) =~= Seq::<Seq<char>>::empty());
    entry(&mut r, "streams/account_balance_file.proto");
    entry(&mut r, "streams/contract_action.proto");
    entry(&mut r, "streams/contract_bytecode.proto");
    entry(&mut r, "streams/contract_state_change.proto");
    entry(&mut r, "streams/hash_object.proto");
    entry(&mut r, "streams/record_stream_file.proto");
    entry(&mut r, "streams/sidecar_file.proto");
    entry(&mut r, "streams/signature_file.proto");
    assert(r@.map_values(|s: String| s@) =~= streams_entry_table());
    r
}

} // verus!
