//! Constant fixture payloads.
//!
//! Each accessor returns a fixed document verbatim: the payloads are inert
//! data owned by caller-side collaborators (a configuration loader, a system
//! prober), not processed here. The contracts pin every returned string to a
//! spec-level constant, so repeated calls are provably identical.

use vstd::prelude::*;

verus! {

/// The configuration fixture document, as a sequence of characters.
pub open spec fn config_text() -> Seq<char> {
    r##"{
        "version": "2.2.0",
        "default_doc_path": "test_files/",
        "local_model_hub": "local_models/",
        "is_admin": true,
        "ActiveAssistant": {
            "full_name": "Intel AI Assistant",
            "short_name": "IAA",
            "header_bg_color": "#0071c5",
            "header_text_bg_color": "#ffffff",
            "sidebar_box_bg_color": "#f5f5f5",
            "sidebar_box_refresh_bg_color": "#e0e0e0",
            "sidebar_box_refresh_hover_bg_color": "#d0d0d0",
            "models": [
                {
                    "full_name": "qwen2-7b-instruct",
                    "model_type": "chat_model"
                },
                {
                    "full_name": "bge-base-en-v1.5",
                    "model_type": "embedding_model"
                },
                {
                    "full_name": "bge-reranker-base",
                    "model_type": "ranker_model"
                }
            ],
            "parameters": "{\"categories\":[{\"name\":\"llm_params\",\"description\":\"LLM generation parameters\",\"fields\":[{\"name\":\"max_token\",\"type\":\"slider\",\"value\":1024,\"min\":100,\"max\":2048},{\"name\":\"temperature\",\"type\":\"slider\",\"value\":0.0,\"min\":0.0,\"max\":1.0}]},{\"name\":\"rag_params\",\"description\":\"RAG parameters\",\"fields\":[{\"name\":\"retriever_top_k\",\"type\":\"slider\",\"value\":10,\"min\":1,\"max\":50},{\"name\":\"reranker_top_k\",\"type\":\"slider\",\"value\":5,\"min\":1,\"max\":20}]}]}",
            "features": ["chat", "rag", "file_upload"],
            "recommended_models": "[{\"model\":\"qwen2-7b-instruct\",\"short_name\":\"qwen2-7b\"}]",
            "all_models": [
                {
                    "full_name": "Qwen2-7B-Instruct",
                    "short_name": "qwen2-7b",
                    "model_type": "chat_model"
                },
                {
                    "full_name": "BGE-Base-EN-v1.5",
                    "short_name": "bge-base-en",
                    "model_type": "embedding_model"
                },
                {
                    "full_name": "BGE-Reranker-Base",
                    "short_name": "bge-reranker",
                    "model_type": "ranker_model"
                }
            ]
        }
    }"##@
}

/// Returns the configuration fixture document.
pub fn get_mock_config() -> (r: String)
    ensures
        r@ == config_text(),
{
    r##"{
        "version": "2.2.0",
        "default_doc_path": "test_files/",
        "local_model_hub": "local_models/",
        "is_admin": true,
        "ActiveAssistant": {
            "full_name": "Intel AI Assistant",
            "short_name": "IAA",
            "header_bg_color": "#0071c5",
            "header_text_bg_color": "#ffffff",
            "sidebar_box_bg_color": "#f5f5f5",
            "sidebar_box_refresh_bg_color": "#e0e0e0",
            "sidebar_box_refresh_hover_bg_color": "#d0d0d0",
            "models": [
                {
                    "full_name": "qwen2-7b-instruct",
                    "model_type": "chat_model"
                },
                {
                    "full_name": "bge-base-en-v1.5",
                    "model_type": "embedding_model"
                },
                {
                    "full_name": "bge-reranker-base",
                    "model_type": "ranker_model"
                }
            ],
            "parameters": "{\"categories\":[{\"name\":\"llm_params\",\"description\":\"LLM generation parameters\",\"fields\":[{\"name\":\"max_token\",\"type\":\"slider\",\"value\":1024,\"min\":100,\"max\":2048},{\"name\":\"temperature\",\"type\":\"slider\",\"value\":0.0,\"min\":0.0,\"max\":1.0}]},{\"name\":\"rag_params\",\"description\":\"RAG parameters\",\"fields\":[{\"name\":\"retriever_top_k\",\"type\":\"slider\",\"value\":10,\"min\":1,\"max\":50},{\"name\":\"reranker_top_k\",\"type\":\"slider\",\"value\":5,\"min\":1,\"max\":20}]}]}",
            "features": ["chat", "rag", "file_upload"],
            "recommended_models": "[{\"model\":\"qwen2-7b-instruct\",\"short_name\":\"qwen2-7b\"}]",
            "all_models": [
                {
                    "full_name": "Qwen2-7B-Instruct",
                    "short_name": "qwen2-7b",
                    "model_type": "chat_model"
                },
                {
                    "full_name": "BGE-Base-EN-v1.5",
                    "short_name": "bge-base-en",
                    "model_type": "embedding_model"
                },
                {
                    "full_name": "BGE-Reranker-Base",
                    "short_name": "bge-reranker",
                    "model_type": "ranker_model"
                }
            ]
        }
    }"##.to_string()
}

/// The system-information fixture document, as a sequence of characters.
pub open spec fn system_info_text() -> Seq<char> {
    r##"{
        "CurrentVersion": "2.2.0",
        "IsMinHWReqMet": true,
        "IsValidated": true,
        "IsLnL": true,
        "IsNpuDriverCompatible": true,
        "CPUInfo": {
            "Name": "Intel(R) Core(TM) i7-12700K",
            "NumberOfCores": 12,
            "NumberOfLogicCores": 20,
            "MaxFreqInGhz": 5.0
        },
        "MemoryInfo": {
            "CapacityInGB": 32,
            "FreqInMHz": 3200,
            "Type": "DDR4"
        },
        "GPUInfo": {
            "Name": "Intel(R) Arc(TM) A770 Graphics",
            "MemoryInGB": 16
        },
        "NpuInfo": {
            "Name": "Intel(R) AI Boost (Simulated NPU)",
            "hasNpu": true,
            "minVersion": "1.0.0",
            "version": "2.0.0"
        }
    }"##@
}

/// Returns the system-information fixture document.
pub fn get_mock_system_info() -> (r: String)
    ensures
        r@ == system_info_text(),
{
    r##"{
        "CurrentVersion": "2.2.0",
        "IsMinHWReqMet": true,
        "IsValidated": true,
        "IsLnL": true,
        "IsNpuDriverCompatible": true,
        "CPUInfo": {
            "Name": "Intel(R) Core(TM) i7-12700K",
            "NumberOfCores": 12,
            "NumberOfLogicCores": 20,
            "MaxFreqInGhz": 5.0
        },
        "MemoryInfo": {
            "CapacityInGB": 32,
            "FreqInMHz": 3200,
            "Type": "DDR4"
        },
        "GPUInfo": {
            "Name": "Intel(R) Arc(TM) A770 Graphics",
            "MemoryInGB": 16
        },
        "NpuInfo": {
            "Name": "Intel(R) AI Boost (Simulated NPU)",
            "hasNpu": true,
            "minVersion": "1.0.0",
            "version": "2.0.0"
        }
    }"##.to_string()
}

/// The acknowledgement returned for a mock configuration update.
pub open spec fn set_config_ack_text() -> Seq<char> {
    "success"@
}

/// Returns the constant acknowledgement for a mock configuration update.
/// It takes no input and cannot fail.
pub fn mock_set_config_success() -> (r: String)
    ensures
        r@ == set_config_ack_text(),
{
    "success".to_string()
}

/// Two values of the configuration fixture are identical: the accessor's
/// contract pins its result to `config_text()`, so any two results of
/// `get_mock_config` are equal, however many calls apart.
pub proof fn lemma_config_fixture_constant(s1: Seq<char>, s2: Seq<char>)
    requires
        s1 == config_text(),
        s2 == config_text(),
    ensures
        s1 == s2,
{
}

/// Two values of the system-information fixture are identical: the accessor's
/// contract pins its result to `system_info_text()`, so any two results of
/// `get_mock_system_info` are equal, however many calls apart.
pub proof fn lemma_system_info_fixture_constant(s1: Seq<char>, s2: Seq<char>)
    requires
        s1 == system_info_text(),
        s2 == system_info_text(),
    ensures
        s1 == s2,
{
}

} // verus!
