pub mod mapper_config;
pub mod mapper0;
pub mod mapper_uxrom;
pub mod mapper_cnrom;
pub mod mapper_axrom;
pub mod mapper_gxrom;
pub mod mapper_mmc1;
pub mod mapper_mmc2;
pub mod mapper_mmc3;
pub mod mapper19;
pub mod mapper;
pub mod mapper_base;
