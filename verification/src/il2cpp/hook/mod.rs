pub mod UnityEngine_TextRenderingModule;
pub mod hook_plan;
pub mod umamusume;
pub mod LibNative_Runtime;
pub mod UnityEngine_CoreModule;
