pub mod frame_control;
